//! The mathematical model of greedy surface extraction.
//!
//! A chunk's mesh is defined here as a pure function of its block grid:
//! for each axis and each layer along that axis, the slice is scanned in
//! row-major order; every unvisited, non-air cell starts a rectangle that
//! is grown width-first along the first in-slice axis and then row by row
//! along the second, and the rectangle emits one merged quad per face
//! direction that both has a texture and is exposed (some cell of the
//! rectangle borders air or the chunk boundary on that side). The
//! executable mesher in `crate::chunk` is proved to return exactly this
//! function of the grid.

use vstd::prelude::*;
use crate::blocks::{Block, BlockType};
use crate::chunk::ChunkMeshVertex;
use crate::grid::{block_at, chunk_width, flat_index, grid_sized};
use crate::textures::BlockTextureIndex;
use crate::world::{Axis, Direction};

verus! {

broadcast use crate::grid::lemma_flat_index_unfold, crate::grid::lemma_grid_sized_len;

/// The block at cell `(a, b)` of slice `layer` along `axis`: the layer
/// fixes the coordinate on the scanned axis, and `(a, b)` walk the other
/// two axes in `(x, y, z)` order.
pub open spec fn slice_block(g: Seq<Block>, axis: Axis, layer: int, a: int, b: int) -> Block {
    match axis {
        Axis::X => block_at(g, layer, a, b),
        Axis::Y => block_at(g, a, layer, b),
        Axis::Z => block_at(g, a, b, layer),
    }
}

/// The block type at cell `(a, b)` of slice `layer` along `axis`.
pub open spec fn slice_type(g: Seq<Block>, axis: Axis, layer: int, a: int, b: int) -> BlockType {
    slice_block(g, axis, layer, a, b).block_type
}

/// Whether the mesher ignores cell `(a, b)` of the slice (air).
pub open spec fn slice_skip(g: Seq<Block>, axis: Axis, layer: int, a: int, b: int) -> bool {
    slice_block(g, axis, layer, a, b).spec_should_skip_mesh()
}

/// Whether the face of cell `(a, b)` of slice `layer` that points toward
/// the next (`positive`) or previous layer is exposed: the neighbouring
/// cell is off the grid or holds air.
pub open spec fn cell_face_exposed(
    g: Seq<Block>,
    axis: Axis,
    layer: int,
    a: int,
    b: int,
    positive: bool,
) -> bool {
    let neighbour = if positive {
        layer + 1
    } else {
        layer - 1
    };
    neighbour < 0 || neighbour >= chunk_width() || slice_skip(g, axis, neighbour, a, b)
}

/// Whether any cell of the rectangle `[a0, a1] x [b0, b1]` of the slice has
/// an exposed face on the given side. A fully covered rectangle emits no
/// quad on that side.
pub open spec fn rect_face_exposed(
    g: Seq<Block>,
    axis: Axis,
    layer: int,
    a0: int,
    a1: int,
    b0: int,
    b1: int,
    positive: bool,
) -> bool {
    exists|a: int, b: int|
        a0 <= a <= a1 && b0 <= b <= b1 && cell_face_exposed(g, axis, layer, a, b, positive)
}

/// Where width-first extension of a rectangle stops: the last cell of the
/// contiguous run of cells of type `t` along the first in-slice axis,
/// starting at column `a` of row `b`.
pub open spec fn width_end(g: Seq<Block>, axis: Axis, layer: int, b: int, t: BlockType, a: int) -> int
    decreases chunk_width() - a,
{
    if a + 1 >= chunk_width() || slice_type(g, axis, layer, a + 1, b) != t {
        a
    } else {
        width_end(g, axis, layer, b, t, a + 1)
    }
}

/// Whether every cell of row `b` between columns `a0` and `a1` has type `t`.
pub open spec fn row_matches(
    g: Seq<Block>,
    axis: Axis,
    layer: int,
    a0: int,
    a1: int,
    b: int,
    t: BlockType,
) -> bool {
    forall|a: int| a0 <= a <= a1 ==> slice_type(g, axis, layer, a, b) == t
}

/// Where height extension stops: the last row such that every row after
/// `b` up to it matches `t` across the established width `[a0, a1]`.
pub open spec fn height_end(
    g: Seq<Block>,
    axis: Axis,
    layer: int,
    a0: int,
    a1: int,
    t: BlockType,
    b: int,
) -> int
    decreases chunk_width() - b,
{
    if b + 1 >= chunk_width() || !row_matches(g, axis, layer, a0, a1, b + 1, t) {
        b
    } else {
        height_end(g, axis, layer, a0, a1, t, b + 1)
    }
}

/// Whether `(a, b)` lies inside the rectangle `[a0, a1] x [b0, b1]`.
pub open spec fn in_rect(a0: int, a1: int, b0: int, b1: int, a: int, b: int) -> bool {
    a0 <= a <= a1 && b0 <= b <= b1
}

/// The set of slice cells a finished rectangle marks as visited.
pub open spec fn rect_cells(a0: int, a1: int, b0: int, b1: int) -> Set<(int, int)> {
    Set::new(|c: (int, int)| in_rect(a0, a1, b0, b1, c.0, c.1))
}

/// A mesh vertex at lattice point `(x, y, z)` with texture coordinates
/// `(u, v)` in block units.
pub open spec fn mk_vertex(x: int, y: int, z: int, u: int, v: int, tex: BlockTextureIndex) -> ChunkMeshVertex {
    ChunkMeshVertex {
        x: x as u32,
        y: y as u32,
        z: z as u32,
        u: u as u32,
        v: v as u32,
        texture_layer: tex.spec_layer(),
    }
}

/// The six vertices (two triangles) of one merged quad. `(gx, gy, gz)` is
/// the grid cell at the rectangle's low corner, and `w`/`h` are the
/// rectangle's extents along the first and second in-slice axes of the
/// face's plane. Winding is counter-clockwise seen from the side the face
/// points to, and texture coordinates tile across the whole rectangle.
pub open spec fn quad_vertices(
    gx: int,
    gy: int,
    gz: int,
    w: int,
    h: int,
    tex: BlockTextureIndex,
    dir: Direction,
) -> Seq<ChunkMeshVertex> {
    let (ll, lr, ur, ul) = match dir {
        Direction::North => (
            mk_vertex(gx, gy, gz + 1, 0, h, tex),
            mk_vertex(gx + w, gy, gz + 1, w, h, tex),
            mk_vertex(gx + w, gy + h, gz + 1, w, 0, tex),
            mk_vertex(gx, gy + h, gz + 1, 0, 0, tex),
        ),
        Direction::South => (
            mk_vertex(gx + w, gy, gz, 0, h, tex),
            mk_vertex(gx, gy, gz, w, h, tex),
            mk_vertex(gx, gy + h, gz, w, 0, tex),
            mk_vertex(gx + w, gy + h, gz, 0, 0, tex),
        ),
        Direction::East => (
            mk_vertex(gx, gy, gz, 0, w, tex),
            mk_vertex(gx, gy, gz + h, h, w, tex),
            mk_vertex(gx, gy + w, gz + h, h, 0, tex),
            mk_vertex(gx, gy + w, gz, 0, 0, tex),
        ),
        Direction::West => (
            mk_vertex(gx + 1, gy, gz + h, 0, w, tex),
            mk_vertex(gx + 1, gy, gz, h, w, tex),
            mk_vertex(gx + 1, gy + w, gz, h, 0, tex),
            mk_vertex(gx + 1, gy + w, gz + h, 0, 0, tex),
        ),
        Direction::Up => (
            mk_vertex(gx + w, gy + 1, gz, 0, h, tex),
            mk_vertex(gx, gy + 1, gz, w, h, tex),
            mk_vertex(gx, gy + 1, gz + h, w, 0, tex),
            mk_vertex(gx + w, gy + 1, gz + h, 0, 0, tex),
        ),
        Direction::Down => (
            mk_vertex(gx, gy, gz, 0, h, tex),
            mk_vertex(gx + w, gy, gz, w, h, tex),
            mk_vertex(gx + w, gy, gz + h, w, 0, tex),
            mk_vertex(gx, gy, gz + h, 0, 0, tex),
        ),
    };
    seq![ll, ur, ul, ll, lr, ur]
}

/// The pair of face directions an axis pass emits, in emission order.
pub open spec fn axis_directions(axis: Axis) -> (Direction, Direction) {
    match axis {
        Axis::X => (Direction::East, Direction::West),
        Axis::Y => (Direction::Up, Direction::Down),
        Axis::Z => (Direction::North, Direction::South),
    }
}

/// The grid cell of the rectangle's low corner, from slice coordinates.
pub open spec fn quad_start(axis: Axis, layer: int, a0: int, b0: int) -> (int, int, int) {
    match axis {
        Axis::X => (layer, a0, b0),
        Axis::Y => (a0, layer, b0),
        Axis::Z => (a0, b0, layer),
    }
}

/// The quad one face direction of a finished rectangle contributes: six
/// vertices when the block type has a texture for that face and the face
/// is exposed, nothing otherwise.
pub open spec fn face_quad(
    g: Seq<Block>,
    axis: Axis,
    layer: int,
    a0: int,
    b0: int,
    a1: int,
    b1: int,
    t: BlockType,
    dir: Direction,
) -> Seq<ChunkMeshVertex> {
    let start = quad_start(axis, layer, a0, b0);
    let w = a1 - a0 + 1;
    let h = b1 - b0 + 1;
    match BlockTextureIndex::spec_from_type_and_direction(t, dir) {
        Ok(tex) => if rect_face_exposed(g, axis, layer, a0, a1, b0, b1, dir.spec_is_positive_side()) {
            quad_vertices(start.0, start.1, start.2, w, h, tex, dir)
        } else {
            Seq::empty()
        },
        Err(_) => Seq::empty(),
    }
}

/// Everything a finished rectangle emits: the quads of the axis's two face
/// directions, in emission order.
pub open spec fn rect_quads(
    g: Seq<Block>,
    axis: Axis,
    layer: int,
    a0: int,
    b0: int,
    a1: int,
    b1: int,
    t: BlockType,
) -> Seq<ChunkMeshVertex> {
    let dirs = axis_directions(axis);
    face_quad(g, axis, layer, a0, b0, a1, b1, t, dirs.0) + face_quad(
        g,
        axis,
        layer,
        a0,
        b0,
        a1,
        b1,
        t,
        dirs.1,
    )
}

/// The vertices the row-major scan of one slice emits from cell `(a, b)`
/// onward, given the cells already visited. Each unvisited, non-air cell
/// grows its rectangle (width first, then rows), marks the rectangle's
/// cells visited and emits its quads.
pub open spec fn scan_slice(
    g: Seq<Block>,
    axis: Axis,
    layer: int,
    visited: Set<(int, int)>,
    a: int,
    b: int,
) -> Seq<ChunkMeshVertex>
    decreases chunk_width() - a, chunk_width() - b,
{
    if a < 0 || b < 0 || a >= chunk_width() {
        Seq::empty()
    } else if b >= chunk_width() {
        scan_slice(g, axis, layer, visited, a + 1, 0)
    } else if slice_skip(g, axis, layer, a, b) || visited.contains((a, b)) {
        scan_slice(g, axis, layer, visited, a, b + 1)
    } else {
        let t = slice_type(g, axis, layer, a, b);
        let a1 = width_end(g, axis, layer, b, t, a);
        let b1 = height_end(g, axis, layer, a, a1, t, b);
        rect_quads(g, axis, layer, a, b, a1, b1, t) + scan_slice(
            g,
            axis,
            layer,
            visited.union(rect_cells(a, a1, b, b1)),
            a,
            b + 1,
        )
    }
}

/// The vertices one whole slice of an axis pass emits.
pub open spec fn layer_mesh(g: Seq<Block>, axis: Axis, layer: int) -> Seq<ChunkMeshVertex> {
    scan_slice(g, axis, layer, Set::empty(), 0, 0)
}

/// The vertices the slices of one axis pass emit from `layer` onward.
pub open spec fn axis_mesh_from(g: Seq<Block>, axis: Axis, layer: int) -> Seq<ChunkMeshVertex>
    decreases chunk_width() - layer,
{
    if layer < 0 || layer >= chunk_width() {
        Seq::empty()
    } else {
        layer_mesh(g, axis, layer) + axis_mesh_from(g, axis, layer + 1)
    }
}

/// The whole pass of one axis: its layers in order.
pub open spec fn axis_mesh(g: Seq<Block>, axis: Axis) -> Seq<ChunkMeshVertex> {
    axis_mesh_from(g, axis, 0)
}

/// The full greedy mesh of a grid: the X, Y and Z passes concatenated.
pub open spec fn chunk_mesh(g: Seq<Block>) -> Seq<ChunkMeshVertex> {
    axis_mesh(g, Axis::X) + axis_mesh(g, Axis::Y) + axis_mesh(g, Axis::Z)
}

/// Whether every block of the grid is air.
pub open spec fn all_air(g: Seq<Block>) -> bool {
    forall|n: int| 0 <= n < g.len() ==> (#[trigger] g[n]).block_type == BlockType::Air
}

proof fn lemma_scan_slice_all_air(
    g: Seq<Block>,
    axis: Axis,
    layer: int,
    visited: Set<(int, int)>,
    a: int,
    b: int,
)
    requires
        grid_sized(g),
        all_air(g),
        0 <= layer < chunk_width(),
        0 <= a,
        0 <= b,
    ensures
        scan_slice(g, axis, layer, visited, a, b) == Seq::<ChunkMeshVertex>::empty(),
    decreases chunk_width() - a, chunk_width() - b,
{
    if a >= chunk_width() {
    } else if b >= chunk_width() {
        lemma_scan_slice_all_air(g, axis, layer, visited, a + 1, 0);
    } else {
        assert(0 <= flat_index(layer, a, b) < g.len());
        assert(0 <= flat_index(a, layer, b) < g.len());
        assert(0 <= flat_index(a, b, layer) < g.len());
        assert(slice_skip(g, axis, layer, a, b));
        lemma_scan_slice_all_air(g, axis, layer, visited, a, b + 1);
    }
}

proof fn lemma_axis_mesh_from_all_air(g: Seq<Block>, axis: Axis, layer: int)
    requires
        grid_sized(g),
        all_air(g),
        0 <= layer,
    ensures
        axis_mesh_from(g, axis, layer) == Seq::<ChunkMeshVertex>::empty(),
    decreases chunk_width() - layer,
{
    if layer < chunk_width() {
        lemma_scan_slice_all_air(g, axis, layer, Set::empty(), 0, 0);
        lemma_axis_mesh_from_all_air(g, axis, layer + 1);
        assert(axis_mesh_from(g, axis, layer) =~= Seq::<ChunkMeshVertex>::empty());
    }
}

/// A grid of nothing but air meshes to nothing: greedy extraction of an
/// empty chunk emits zero vertices.
pub proof fn lemma_all_air_mesh_empty(g: Seq<Block>)
    requires
        grid_sized(g),
        all_air(g),
    ensures
        chunk_mesh(g) == Seq::<ChunkMeshVertex>::empty(),
{
    lemma_axis_mesh_from_all_air(g, Axis::X, 0);
    lemma_axis_mesh_from_all_air(g, Axis::Y, 0);
    lemma_axis_mesh_from_all_air(g, Axis::Z, 0);
    assert(chunk_mesh(g) =~= Seq::<ChunkMeshVertex>::empty());
}

/// Whether a mesh vertex lies on the chunk's lattice: positions and
/// texture coordinates within one chunk width, and a texture layer that
/// exists in the block texture array.
pub open spec fn vertex_in_lattice(v: ChunkMeshVertex) -> bool {
    &&& v.x <= chunk_width()
    &&& v.y <= chunk_width()
    &&& v.z <= chunk_width()
    &&& v.u <= chunk_width()
    &&& v.v <= chunk_width()
    &&& v.texture_layer < 4
}

/// Every vertex of a sequence lies on the chunk lattice.
pub open spec fn mesh_in_lattice(s: Seq<ChunkMeshVertex>) -> bool {
    forall|n: int| 0 <= n < s.len() ==> vertex_in_lattice(#[trigger] s[n])
}

proof fn lemma_width_end_bounds(g: Seq<Block>, axis: Axis, layer: int, b: int, t: BlockType, a: int)
    requires
        0 <= a < chunk_width(),
    ensures
        a <= width_end(g, axis, layer, b, t, a) < chunk_width(),
    decreases chunk_width() - a,
{
    if !(a + 1 >= chunk_width() || slice_type(g, axis, layer, a + 1, b) != t) {
        lemma_width_end_bounds(g, axis, layer, b, t, a + 1);
    }
}

proof fn lemma_height_end_bounds(
    g: Seq<Block>,
    axis: Axis,
    layer: int,
    a0: int,
    a1: int,
    t: BlockType,
    b: int,
)
    requires
        0 <= b < chunk_width(),
    ensures
        b <= height_end(g, axis, layer, a0, a1, t, b) < chunk_width(),
    decreases chunk_width() - b,
{
    if !(b + 1 >= chunk_width() || !row_matches(g, axis, layer, a0, a1, b + 1, t)) {
        lemma_height_end_bounds(g, axis, layer, a0, a1, t, b + 1);
    }
}

proof fn lemma_rect_quads_in_lattice(
    g: Seq<Block>,
    axis: Axis,
    layer: int,
    a0: int,
    b0: int,
    a1: int,
    b1: int,
    t: BlockType,
)
    requires
        0 <= layer < chunk_width(),
        0 <= a0 <= a1 < chunk_width(),
        0 <= b0 <= b1 < chunk_width(),
    ensures
        mesh_in_lattice(rect_quads(g, axis, layer, a0, b0, a1, b1, t)),
{
    let dirs = axis_directions(axis);
    let first = face_quad(g, axis, layer, a0, b0, a1, b1, t, dirs.0);
    let second = face_quad(g, axis, layer, a0, b0, a1, b1, t, dirs.1);
    assert(mesh_in_lattice(first));
    assert(mesh_in_lattice(second));
    assert forall|n: int|
        0 <= n < rect_quads(g, axis, layer, a0, b0, a1, b1, t).len() implies vertex_in_lattice(
        #[trigger] rect_quads(g, axis, layer, a0, b0, a1, b1, t)[n]) by {
        if n < first.len() {
            assert(rect_quads(g, axis, layer, a0, b0, a1, b1, t)[n] == first[n]);
        } else {
            assert(rect_quads(g, axis, layer, a0, b0, a1, b1, t)[n] == second[n - first.len()]);
        }
    }
}

proof fn lemma_scan_slice_in_lattice(
    g: Seq<Block>,
    axis: Axis,
    layer: int,
    visited: Set<(int, int)>,
    a: int,
    b: int,
)
    requires
        0 <= layer < chunk_width(),
        0 <= a,
        0 <= b,
    ensures
        mesh_in_lattice(scan_slice(g, axis, layer, visited, a, b)),
    decreases chunk_width() - a, chunk_width() - b,
{
    if a >= chunk_width() {
    } else if b >= chunk_width() {
        lemma_scan_slice_in_lattice(g, axis, layer, visited, a + 1, 0);
    } else if slice_skip(g, axis, layer, a, b) || visited.contains((a, b)) {
        lemma_scan_slice_in_lattice(g, axis, layer, visited, a, b + 1);
    } else {
        let t = slice_type(g, axis, layer, a, b);
        let a1 = width_end(g, axis, layer, b, t, a);
        lemma_width_end_bounds(g, axis, layer, b, t, a);
        let b1 = height_end(g, axis, layer, a, a1, t, b);
        lemma_height_end_bounds(g, axis, layer, a, a1, t, b);
        let quads = rect_quads(g, axis, layer, a, b, a1, b1, t);
        lemma_rect_quads_in_lattice(g, axis, layer, a, b, a1, b1, t);
        let rest = scan_slice(g, axis, layer, visited.union(rect_cells(a, a1, b, b1)), a, b + 1);
        lemma_scan_slice_in_lattice(
            g,
            axis,
            layer,
            visited.union(rect_cells(a, a1, b, b1)),
            a,
            b + 1,
        );
        assert forall|n: int|
            0 <= n < scan_slice(g, axis, layer, visited, a, b).len() implies vertex_in_lattice(
            #[trigger] scan_slice(g, axis, layer, visited, a, b)[n]) by {
            if n < quads.len() {
                assert(scan_slice(g, axis, layer, visited, a, b)[n] == quads[n]);
            } else {
                assert(scan_slice(g, axis, layer, visited, a, b)[n] == rest[n - quads.len()]);
            }
        }
    }
}

proof fn lemma_axis_mesh_from_in_lattice(g: Seq<Block>, axis: Axis, layer: int)
    requires
        0 <= layer,
    ensures
        mesh_in_lattice(axis_mesh_from(g, axis, layer)),
    decreases chunk_width() - layer,
{
    if 0 <= layer < chunk_width() {
        let head = layer_mesh(g, axis, layer);
        let tail = axis_mesh_from(g, axis, layer + 1);
        lemma_scan_slice_in_lattice(g, axis, layer, Set::empty(), 0, 0);
        lemma_axis_mesh_from_in_lattice(g, axis, layer + 1);
        assert forall|n: int|
            0 <= n < axis_mesh_from(g, axis, layer).len() implies vertex_in_lattice(
            #[trigger] axis_mesh_from(g, axis, layer)[n]) by {
            if n < head.len() {
                assert(axis_mesh_from(g, axis, layer)[n] == head[n]);
            } else {
                assert(axis_mesh_from(g, axis, layer)[n] == tail[n - head.len()]);
            }
        }
    }
}

/// Every vertex the greedy mesher emits lies on the chunk's own lattice:
/// no position or texture coordinate leaves the chunk, and every texture
/// layer exists. The render side can therefore convert the mesh to world
/// space exactly and place it inside the chunk's bounds.
pub proof fn lemma_chunk_mesh_in_lattice(g: Seq<Block>)
    ensures
        mesh_in_lattice(chunk_mesh(g)),
{
    let x = axis_mesh(g, Axis::X);
    let y = axis_mesh(g, Axis::Y);
    let z = axis_mesh(g, Axis::Z);
    lemma_axis_mesh_from_in_lattice(g, Axis::X, 0);
    lemma_axis_mesh_from_in_lattice(g, Axis::Y, 0);
    lemma_axis_mesh_from_in_lattice(g, Axis::Z, 0);
    assert forall|n: int|
        0 <= n < chunk_mesh(g).len() implies vertex_in_lattice(#[trigger] chunk_mesh(g)[n]) by {
        if n < x.len() {
            assert(chunk_mesh(g)[n] == x[n]);
        } else if n < x.len() + y.len() {
            assert(chunk_mesh(g)[n] == y[n - x.len()]);
        } else {
            assert(chunk_mesh(g)[n] == z[n - x.len() - y.len()]);
        }
    }
}

} // verus!
