//! The chunk grid model: flat indexing of the fixed-size block cube, and
//! the facts about it that the rest of the crate reasons with.

use vstd::prelude::*;
use crate::blocks::Block;

verus! {

/// Number of blocks along each edge of a chunk.
pub const CHUNK_BLOCK_WIDTH: usize = 32;

/// The chunk edge length as a mathematical integer.
pub open spec fn chunk_width() -> int {
    CHUNK_BLOCK_WIDTH as int
}

/// Flat position of grid cell `(i, j, k)` inside a chunk's block vector.
pub open spec fn flat_index(i: int, j: int, k: int) -> int {
    i + j * chunk_width() + k * chunk_width() * chunk_width()
}

/// Whether `(i, j, k)` lies inside the chunk grid.
pub open spec fn in_chunk(i: int, j: int, k: int) -> bool {
    0 <= i < chunk_width() && 0 <= j < chunk_width() && 0 <= k < chunk_width()
}

/// A grid is the right size for a chunk.
pub open spec fn grid_sized(g: Seq<Block>) -> bool {
    g.len() == chunk_width() * chunk_width() * chunk_width()
}

/// The block at grid cell `(i, j, k)`.
pub open spec fn block_at(g: Seq<Block>, i: int, j: int, k: int) -> Block {
    g[flat_index(i, j, k)]
}

/// Flat position of slice cell `(a, b)` inside a visited mask.
pub open spec fn mask_index(a: int, b: int) -> int {
    a * chunk_width() + b
}

/// `flat_index` written out with the chunk width folded in, so that plain
/// linear arithmetic settles all index reasoning.
pub broadcast proof fn lemma_flat_index_unfold(i: int, j: int, k: int)
    ensures
        #[trigger] flat_index(i, j, k) == i + j * 32 + k * 1024,
{
    assert(j * chunk_width() == j * 32) by (nonlinear_arith)
        requires
            chunk_width() == 32,
    ;
    assert(k * chunk_width() * chunk_width() == k * 1024) by (nonlinear_arith)
        requires
            chunk_width() == 32,
    ;
}

/// `mask_index` written out with the chunk width folded in.
pub broadcast proof fn lemma_mask_index_unfold(a: int, b: int)
    ensures
        #[trigger] mask_index(a, b) == a * 32 + b,
{
    assert(a * chunk_width() == a * 32) by (nonlinear_arith)
        requires
            chunk_width() == 32,
    ;
}

/// A full-sized grid holds exactly 32768 blocks.
pub broadcast proof fn lemma_grid_sized_len(g: Seq<Block>)
    ensures
        #[trigger] grid_sized(g) ==> g.len() == 32768,
{
    assert(chunk_width() * chunk_width() * chunk_width() == 32768) by (nonlinear_arith)
        requires
            chunk_width() == 32,
    ;
}

/// Distinct cells of the grid have distinct flat positions.
pub proof fn lemma_flat_index_injective(
    i1: int,
    j1: int,
    k1: int,
    i2: int,
    j2: int,
    k2: int,
)
    requires
        in_chunk(i1, j1, k1),
        in_chunk(i2, j2, k2),
        flat_index(i1, j1, k1) == flat_index(i2, j2, k2),
    ensures
        i1 == i2 && j1 == j2 && k1 == k2,
{
    lemma_flat_index_unfold(i1, j1, k1);
    lemma_flat_index_unfold(i2, j2, k2);
}

/// Writing a block and reading it back at the same cell returns exactly
/// that block, and every other cell keeps its previous block.
pub proof fn lemma_voxel_round_trip(g: Seq<Block>, i: int, j: int, k: int, b: Block)
    requires
        grid_sized(g),
        in_chunk(i, j, k),
    ensures
        block_at(g.update(flat_index(i, j, k), b), i, j, k) == b,
        forall|i2: int, j2: int, k2: int|
            in_chunk(i2, j2, k2) && !(i2 == i && j2 == j && k2 == k) ==> block_at(
                g.update(flat_index(i, j, k), b),
                i2,
                j2,
                k2,
            ) == block_at(g, i2, j2, k2),
{
    lemma_grid_sized_len(g);
    lemma_flat_index_unfold(i, j, k);
    assert forall|i2: int, j2: int, k2: int|
        in_chunk(i2, j2, k2) && !(i2 == i && j2 == j && k2 == k) implies block_at(
        g.update(flat_index(i, j, k), b),
        i2,
        j2,
        k2,
    ) == block_at(g, i2, j2, k2) by {
        if flat_index(i2, j2, k2) == flat_index(i, j, k) {
            lemma_flat_index_injective(i2, j2, k2, i, j, k);
        }
    }
}

} // verus!
