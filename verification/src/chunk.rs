//! The chunk: a fixed-size cubic grid of blocks that owns a lazily rebuilt
//! greedy mesh of its visible block faces.
//!
//! Blocks live in one flat vector, indexed by `flat_index`; `at` and `set`
//! are the only access points. Every mutation marks the chunk dirty, and
//! `logic` rebuilds the mesh exactly when the dirty flag is set, so a clean
//! chunk's stored mesh always equals `crate::meshing::chunk_mesh` of its
//! grid.

use vstd::prelude::*;
use vstd::pervasive::VecAdditionalExecFns;
use crate::blocks::{Block, BlockType};
use crate::grid::{
    block_at, chunk_width, flat_index, grid_sized, in_chunk, lemma_flat_index_unfold,
    lemma_grid_sized_len, lemma_mask_index_unfold, lemma_voxel_round_trip, mask_index,
};
use crate::meshing::{
    all_air, axis_mesh, axis_mesh_from, cell_face_exposed, chunk_mesh, height_end, layer_mesh,
    lemma_chunk_mesh_in_lattice, mesh_in_lattice, quad_vertices, rect_cells, rect_face_exposed,
    rect_quads, row_matches, scan_slice, slice_block, slice_type, width_end,
};
use crate::textures::BlockTextureIndex;
use crate::world::{Axis, Direction};

pub use crate::grid::CHUNK_BLOCK_WIDTH;

verus! {

broadcast use lemma_flat_index_unfold, lemma_mask_index_unfold, lemma_grid_sized_len;

/// One vertex of a chunk mesh, on the block lattice of its chunk: the
/// position is in block units relative to the chunk's low corner, `u`/`v`
/// are texture coordinates in block units so textures tile across merged
/// faces, and `texture_layer` picks the layer of the block texture array.
/// The render side scales positions and texture coordinates by the block
/// width and adds the chunk's world-space origin.
#[derive(Clone, Copy, Debug, PartialEq, Eq, Structural)]
pub struct ChunkMeshVertex {
    pub x: u32,
    pub y: u32,
    pub z: u32,
    pub u: u32,
    pub v: u32,
    pub texture_layer: u32,
}

/// A chunk: a cube of `CHUNK_BLOCK_WIDTH`³ blocks at a grid coordinate in
/// the world, plus the most recently built mesh and the dirty flag that
/// drives lazy rebuilding.
pub struct Chunk {
    pub blocks: Vec<Block>,
    pub block_mesh: Vec<ChunkMeshVertex>,
    pub needs_mesh_update: bool,
    pub vertex_count: usize,
    pub mesh_builds: u64,
    pub chunk_i: i64,
    pub chunk_j: i64,
    pub chunk_k: i64,
}

impl Chunk {
    /// The block grid as a sequence, indexed by `flat_index`.
    pub open spec fn grid(&self) -> Seq<Block> {
        self.blocks@
    }

    /// The currently stored mesh vertices.
    pub open spec fn mesh_view(&self) -> Seq<ChunkMeshVertex> {
        self.block_mesh@
    }

    pub open spec fn spec_needs_mesh_update(&self) -> bool {
        self.needs_mesh_update
    }

    pub open spec fn spec_vertex_count(&self) -> usize {
        self.vertex_count
    }

    pub open spec fn spec_mesh_builds(&self) -> u64 {
        self.mesh_builds
    }

    /// Whether this chunk sits at grid coordinate `(x, y, z)` of the world.
    pub open spec fn at_coords(&self, x: i64, y: i64, z: i64) -> bool {
        self.chunk_i == x && self.chunk_j == y && self.chunk_k == z
    }

    /// Whether two chunks claim the same world grid coordinate.
    pub open spec fn same_coords(&self, other: Chunk) -> bool {
        self.chunk_i == other.chunk_i && self.chunk_j == other.chunk_j && self.chunk_k
            == other.chunk_k
    }

    /// The grid is full-sized and all of its blocks are well formed.
    pub open spec fn wf_grid(&self) -> bool {
        &&& grid_sized(self.blocks@)
        &&& forall|n: int| 0 <= n < self.blocks@.len() ==> (#[trigger] self.blocks@[n]).wf()
    }

    /// Chunk invariant: a well-formed grid, a vertex count that matches
    /// the stored mesh, and — whenever the chunk is clean — a stored mesh
    /// that is exactly the greedy mesh of the grid.
    pub open spec fn wf(&self) -> bool {
        &&& self.wf_grid()
        &&& self.vertex_count == self.block_mesh@.len()
        &&& !self.needs_mesh_update ==> self.block_mesh@ == chunk_mesh(self.blocks@)
    }

    /// What `Chunk::generate` promises: an all-fresh chunk at the given
    /// coordinate whose bottom half is grass and top half air, dirty and
    /// not yet meshed.
    pub open spec fn is_generated(&self, x: i64, y: i64, z: i64) -> bool {
        &&& self.wf()
        &&& self.at_coords(x, y, z)
        &&& self.spec_needs_mesh_update()
        &&& self.mesh_view() == Seq::<ChunkMeshVertex>::empty()
        &&& self.spec_mesh_builds() == 0
        &&& forall|i: int, j: int, k: int|
            in_chunk(i, j, k) ==> #[trigger] block_at(self.grid(), i, j, k)
                == Self::spec_generated_block(j)
    }

    /// The block the placeholder terrain rule puts at height `j`: grass in
    /// the bottom half of the chunk, air above.
    pub open spec fn spec_generated_block(j: int) -> Block {
        if j < chunk_width() / 2 {
            Block::spec_from(BlockType::Grass)
        } else {
            Block::spec_from(BlockType::Air)
        }
    }

    /// Makes an all-air chunk at world grid coordinate
    /// `(chunk_i, chunk_j, chunk_k)`, dirty so that the first `logic` call
    /// builds its (empty) mesh.
    pub fn new(chunk_i: i64, chunk_j: i64, chunk_k: i64) -> (c: Chunk)
        ensures
            c.wf(),
            all_air(c.grid()),
            forall|n: int|
                0 <= n < c.grid().len() ==> #[trigger] c.grid()[n] == Block::spec_from(
                    BlockType::Air,
                ),
            forall|i: int, j: int, k: int|
                in_chunk(i, j, k) ==> #[trigger] block_at(c.grid(), i, j, k) == Block::spec_from(
                    BlockType::Air,
                ),
            c.at_coords(chunk_i, chunk_j, chunk_k),
            c.spec_needs_mesh_update(),
            c.mesh_view() == Seq::<ChunkMeshVertex>::empty(),
            c.spec_mesh_builds() == 0,
    {
        let blocks: Vec<Block> = vec![Block::from(BlockType::Air); CHUNK_BLOCK_WIDTH
            * CHUNK_BLOCK_WIDTH * CHUNK_BLOCK_WIDTH];
        let c = Chunk {
            blocks,
            block_mesh: Vec::new(),
            needs_mesh_update: true,
            vertex_count: 0,
            mesh_builds: 0,
            chunk_i,
            chunk_j,
            chunk_k,
        };
        proof {
            assert forall|n: int| 0 <= n < c.blocks@.len() implies (#[trigger] c.blocks@[n])
                == Block::spec_from(BlockType::Air) by {
                assert(cloned(Block::spec_from(BlockType::Air), c.blocks@[n]));
            }
        }
        c
    }

    /// Generates the chunk at grid coordinate `(chunk_i, chunk_j, chunk_k)`
    /// with the placeholder terrain rule: the bottom half of the grid is
    /// filled with grass, the rest stays air.
    pub fn generate(chunk_i: i64, chunk_j: i64, chunk_k: i64) -> (c: Chunk)
        ensures
            c.is_generated(chunk_i, chunk_j, chunk_k),
    {
        let mut c = Chunk::new(chunk_i, chunk_j, chunk_k);
        let grass = Block::from(BlockType::Grass);
        let mut i: usize = 0;
        while i < CHUNK_BLOCK_WIDTH
            invariant
                c.wf(),
                c.at_coords(chunk_i, chunk_j, chunk_k),
                c.spec_needs_mesh_update(),
                c.mesh_view() == Seq::<ChunkMeshVertex>::empty(),
                c.spec_mesh_builds() == 0,
                grass == Block::spec_from(BlockType::Grass),
                i <= CHUNK_BLOCK_WIDTH,
                forall|i2: int, j2: int, k2: int|
                    in_chunk(i2, j2, k2) ==> #[trigger] block_at(c.grid(), i2, j2, k2) == (
                    if j2 < chunk_width() / 2 && i2 < i {
                        Block::spec_from(BlockType::Grass)
                    } else {
                        Block::spec_from(BlockType::Air)
                    }),
            decreases CHUNK_BLOCK_WIDTH - i,
        {
            let mut j: usize = 0;
            while j < CHUNK_BLOCK_WIDTH / 2
                invariant
                    c.wf(),
                    c.at_coords(chunk_i, chunk_j, chunk_k),
                    c.spec_needs_mesh_update(),
                    c.mesh_view() == Seq::<ChunkMeshVertex>::empty(),
                    c.spec_mesh_builds() == 0,
                    grass == Block::spec_from(BlockType::Grass),
                    i < CHUNK_BLOCK_WIDTH,
                    j <= CHUNK_BLOCK_WIDTH / 2,
                    forall|i2: int, j2: int, k2: int|
                        in_chunk(i2, j2, k2) ==> #[trigger] block_at(c.grid(), i2, j2, k2) == (
                        if j2 < chunk_width() / 2 && (i2 < i || (i2 == i && j2 < j)) {
                            Block::spec_from(BlockType::Grass)
                        } else {
                            Block::spec_from(BlockType::Air)
                        }),
                decreases CHUNK_BLOCK_WIDTH / 2 - j,
            {
                let mut k: usize = 0;
                while k < CHUNK_BLOCK_WIDTH
                    invariant
                        c.wf(),
                        c.at_coords(chunk_i, chunk_j, chunk_k),
                        c.spec_needs_mesh_update(),
                        c.mesh_view() == Seq::<ChunkMeshVertex>::empty(),
                        c.spec_mesh_builds() == 0,
                        grass == Block::spec_from(BlockType::Grass),
                        i < CHUNK_BLOCK_WIDTH,
                        j < CHUNK_BLOCK_WIDTH / 2,
                        k <= CHUNK_BLOCK_WIDTH,
                        forall|i2: int, j2: int, k2: int|
                            in_chunk(i2, j2, k2) ==> #[trigger] block_at(c.grid(), i2, j2, k2) == (
                            if j2 < chunk_width() / 2 && (i2 < i || (i2 == i && (j2 < j || (j2 == j
                                && k2 < k)))) {
                                Block::spec_from(BlockType::Grass)
                            } else {
                                Block::spec_from(BlockType::Air)
                            }),
                    decreases CHUNK_BLOCK_WIDTH - k,
                {
                    let ghost old_grid = c.grid();
                    c.set(i, j, k, grass);
                    proof {
                        lemma_voxel_round_trip(old_grid, i as int, j as int, k as int, grass);
                    }
                    k += 1;
                }
                j += 1;
            }
            i += 1;
        }
        c
    }

    /// The block at cell `(i, j, k)`.
    pub fn at(&self, i: usize, j: usize, k: usize) -> (b: Block)
        requires
            self.wf_grid(),
            i < CHUNK_BLOCK_WIDTH,
            j < CHUNK_BLOCK_WIDTH,
            k < CHUNK_BLOCK_WIDTH,
        ensures
            b == block_at(self.grid(), i as int, j as int, k as int),
    {
        proof {
            assert(flat_index(i as int, j as int, k as int) < 32768);
        }
        let idx = i + j * CHUNK_BLOCK_WIDTH + k * CHUNK_BLOCK_WIDTH * CHUNK_BLOCK_WIDTH;
        assert(idx == flat_index(i as int, j as int, k as int));
        self.blocks[idx]
    }

    /// Writes block `b` at cell `(i, j, k)` and marks the chunk dirty, so
    /// the next `logic` call rebuilds the mesh. Nothing else changes: the
    /// stored mesh, the build counter and the chunk coordinate stay as
    /// they were.
    pub fn set(&mut self, i: usize, j: usize, k: usize, b: Block)
        requires
            old(self).wf(),
            i < CHUNK_BLOCK_WIDTH,
            j < CHUNK_BLOCK_WIDTH,
            k < CHUNK_BLOCK_WIDTH,
            b.wf(),
        ensures
            final(self).wf(),
            final(self).grid() == old(self).grid().update(
                flat_index(i as int, j as int, k as int),
                b,
            ),
            block_at(final(self).grid(), i as int, j as int, k as int) == b,
            forall|i2: int, j2: int, k2: int|
                in_chunk(i2, j2, k2) && !(i2 == i && j2 == j && k2 == k) ==> #[trigger] block_at(
                    final(self).grid(),
                    i2,
                    j2,
                    k2,
                ) == block_at(old(self).grid(), i2, j2, k2),
            final(self).spec_needs_mesh_update(),
            final(self).mesh_view() == old(self).mesh_view(),
            final(self).spec_vertex_count() == old(self).spec_vertex_count(),
            final(self).spec_mesh_builds() == old(self).spec_mesh_builds(),
            forall|x: i64, y: i64, z: i64|
                #[trigger] final(self).at_coords(x, y, z) == old(self).at_coords(x, y, z),
    {
        proof {
            assert(flat_index(i as int, j as int, k as int) < 32768);
        }
        let idx = i + j * CHUNK_BLOCK_WIDTH + k * CHUNK_BLOCK_WIDTH * CHUNK_BLOCK_WIDTH;
        assert(idx == flat_index(i as int, j as int, k as int));
        self.blocks.set(idx, b);
        self.needs_mesh_update = true;
        proof {
            lemma_voxel_round_trip(old(self).grid(), i as int, j as int, k as int, b);
        }
    }

    /// Whether the chunk sits at world grid coordinate `(x, y, z)`.
    pub fn has_coords(&self, x: i64, y: i64, z: i64) -> (r: bool)
        ensures
            r == self.at_coords(x, y, z),
    {
        self.chunk_i == x && self.chunk_j == y && self.chunk_k == z
    }

    /// The chunk's world grid coordinate.
    pub fn grid_coords(&self) -> (r: (i64, i64, i64))
        ensures
            self.at_coords(r.0, r.1, r.2),
    {
        (self.chunk_i, self.chunk_j, self.chunk_k)
    }

    /// Whether a mesh rebuild is pending.
    pub fn needs_mesh_update(&self) -> (r: bool)
        ensures
            r == self.spec_needs_mesh_update(),
    {
        self.needs_mesh_update
    }

    /// The stored mesh vertices, six per merged quad.
    pub fn vertices(&self) -> (r: &Vec<ChunkMeshVertex>)
        ensures
            r@ == self.mesh_view(),
    {
        &self.block_mesh
    }

    /// How many vertices the stored mesh holds.
    pub fn vertex_count(&self) -> (r: usize)
        ensures
            r == self.spec_vertex_count(),
    {
        self.vertex_count
    }

    /// How many times the mesh has been rebuilt (saturating); lets callers
    /// observe that a clean `logic` call does no mesh work.
    pub fn mesh_build_count(&self) -> (r: u64)
        ensures
            r == self.spec_mesh_builds(),
    {
        self.mesh_builds
    }

    /// The block at cell `(i, j)` of slice `layer` along `along_axis`.
    fn get_block_along_layer(&self, along_axis: Axis, layer: usize, i: usize, j: usize) -> (b:
        Block)
        requires
            self.wf_grid(),
            layer < CHUNK_BLOCK_WIDTH,
            i < CHUNK_BLOCK_WIDTH,
            j < CHUNK_BLOCK_WIDTH,
        ensures
            b == slice_block(self.grid(), along_axis, layer as int, i as int, j as int),
    {
        match along_axis {
            Axis::X => self.at(layer, i, j),
            Axis::Y => self.at(i, layer, j),
            Axis::Z => self.at(i, j, layer),
        }
    }

    /// Whether every cell of row `b` between columns `a0` and `a1` of the
    /// slice holds a block of type `t`.
    fn row_all_match(
        &self,
        along_axis: Axis,
        layer: usize,
        a0: usize,
        a1: usize,
        b: usize,
        t: BlockType,
    ) -> (r: bool)
        requires
            self.wf_grid(),
            layer < CHUNK_BLOCK_WIDTH,
            a0 <= a1 < CHUNK_BLOCK_WIDTH,
            b < CHUNK_BLOCK_WIDTH,
        ensures
            r == row_matches(self.grid(), along_axis, layer as int, a0 as int, a1 as int, b as int, t),
    {
        let mut a = a0;
        while a <= a1
            invariant
                self.wf_grid(),
                layer < CHUNK_BLOCK_WIDTH,
                a0 <= a <= a1 + 1,
                a1 < CHUNK_BLOCK_WIDTH,
                b < CHUNK_BLOCK_WIDTH,
                forall|aa: int|
                    a0 <= aa < a ==> slice_type(self.grid(), along_axis, layer as int, aa, b as int)
                        == t,
            decreases a1 + 1 - a,
        {
            if self.get_block_along_layer(along_axis, layer, a, b).block_type != t {
                proof {
                    assert(slice_type(self.grid(), along_axis, layer as int, a as int, b as int)
                        != t);
                }
                return false;
            }
            a += 1;
        }
        true
    }

    /// Width-first extension: walks along the first in-slice axis from
    /// column `a` of row `b` while blocks keep type `t`, and returns the
    /// last matching column.
    fn grow_width(&self, along_axis: Axis, layer: usize, a: usize, b: usize, t: BlockType) -> (e:
        usize)
        requires
            self.wf_grid(),
            layer < CHUNK_BLOCK_WIDTH,
            a < CHUNK_BLOCK_WIDTH,
            b < CHUNK_BLOCK_WIDTH,
        ensures
            a <= e < CHUNK_BLOCK_WIDTH,
            e as int == width_end(self.grid(), along_axis, layer as int, b as int, t, a as int),
    {
        let mut e = a;
        loop
            invariant
                self.wf_grid(),
                layer < CHUNK_BLOCK_WIDTH,
                b < CHUNK_BLOCK_WIDTH,
                a <= e < CHUNK_BLOCK_WIDTH,
                width_end(self.grid(), along_axis, layer as int, b as int, t, a as int) == width_end(
                    self.grid(),
                    along_axis,
                    layer as int,
                    b as int,
                    t,
                    e as int,
                ),
            ensures
                a <= e < CHUNK_BLOCK_WIDTH,
                e as int == width_end(self.grid(), along_axis, layer as int, b as int, t, a as int),
            decreases CHUNK_BLOCK_WIDTH - e,
        {
            if e + 1 >= CHUNK_BLOCK_WIDTH {
                break;
            }
            if self.get_block_along_layer(along_axis, layer, e + 1, b).block_type != t {
                break;
            }
            e += 1;
        }
        e
    }

    /// Height extension: advances row by row past `b` while the whole row
    /// across `[a0, a1]` keeps type `t`, and returns the last full row.
    fn grow_height(
        &self,
        along_axis: Axis,
        layer: usize,
        a0: usize,
        a1: usize,
        b: usize,
        t: BlockType,
    ) -> (f: usize)
        requires
            self.wf_grid(),
            layer < CHUNK_BLOCK_WIDTH,
            a0 <= a1 < CHUNK_BLOCK_WIDTH,
            b < CHUNK_BLOCK_WIDTH,
        ensures
            b <= f < CHUNK_BLOCK_WIDTH,
            f as int == height_end(
                self.grid(),
                along_axis,
                layer as int,
                a0 as int,
                a1 as int,
                t,
                b as int,
            ),
    {
        let mut f = b;
        loop
            invariant
                self.wf_grid(),
                layer < CHUNK_BLOCK_WIDTH,
                a0 <= a1 < CHUNK_BLOCK_WIDTH,
                b <= f < CHUNK_BLOCK_WIDTH,
                height_end(self.grid(), along_axis, layer as int, a0 as int, a1 as int, t, b as int)
                    == height_end(
                    self.grid(),
                    along_axis,
                    layer as int,
                    a0 as int,
                    a1 as int,
                    t,
                    f as int,
                ),
            ensures
                b <= f < CHUNK_BLOCK_WIDTH,
                f as int == height_end(
                    self.grid(),
                    along_axis,
                    layer as int,
                    a0 as int,
                    a1 as int,
                    t,
                    b as int,
                ),
            decreases CHUNK_BLOCK_WIDTH - f,
        {
            if f + 1 >= CHUNK_BLOCK_WIDTH {
                break;
            }
            if !self.row_all_match(along_axis, layer, a0, a1, f + 1, t) {
                break;
            }
            f += 1;
        }
        f
    }

    /// Whether any cell of the rectangle has its face toward the next
    /// (`positive`) or previous layer exposed: at the chunk boundary, or
    /// bordering an air block in the neighbouring slice.
    fn face_exposed(
        &self,
        along_axis: Axis,
        layer: usize,
        a0: usize,
        a1: usize,
        b0: usize,
        b1: usize,
        positive: bool,
    ) -> (r: bool)
        requires
            self.wf_grid(),
            layer < CHUNK_BLOCK_WIDTH,
            a0 <= a1 < CHUNK_BLOCK_WIDTH,
            b0 <= b1 < CHUNK_BLOCK_WIDTH,
        ensures
            r == rect_face_exposed(
                self.grid(),
                along_axis,
                layer as int,
                a0 as int,
                a1 as int,
                b0 as int,
                b1 as int,
                positive,
            ),
    {
        if positive && layer + 1 >= CHUNK_BLOCK_WIDTH {
            proof {
                assert(cell_face_exposed(
                    self.grid(),
                    along_axis,
                    layer as int,
                    a0 as int,
                    b0 as int,
                    positive,
                ));
            }
            return true;
        }
        if !positive && layer == 0 {
            proof {
                assert(cell_face_exposed(
                    self.grid(),
                    along_axis,
                    layer as int,
                    a0 as int,
                    b0 as int,
                    positive,
                ));
            }
            return true;
        }
        let neighbour = if positive {
            layer + 1
        } else {
            layer - 1
        };
        let mut a = a0;
        while a <= a1
            invariant
                self.wf_grid(),
                layer < CHUNK_BLOCK_WIDTH,
                a0 <= a <= a1 + 1,
                a1 < CHUNK_BLOCK_WIDTH,
                b0 <= b1 < CHUNK_BLOCK_WIDTH,
                neighbour < CHUNK_BLOCK_WIDTH,
                neighbour as int == if positive {
                    layer as int + 1
                } else {
                    layer as int - 1
                },
                forall|aa: int, bb: int|
                    a0 <= aa < a && b0 <= bb <= b1 ==> !cell_face_exposed(
                        self.grid(),
                        along_axis,
                        layer as int,
                        aa,
                        bb,
                        positive,
                    ),
            decreases a1 + 1 - a,
        {
            let mut b = b0;
            while b <= b1
                invariant
                    self.wf_grid(),
                    layer < CHUNK_BLOCK_WIDTH,
                    a0 <= a <= a1,
                    a1 < CHUNK_BLOCK_WIDTH,
                    b0 <= b <= b1 + 1,
                    b1 < CHUNK_BLOCK_WIDTH,
                    neighbour < CHUNK_BLOCK_WIDTH,
                    neighbour as int == if positive {
                        layer as int + 1
                    } else {
                        layer as int - 1
                    },
                    forall|aa: int, bb: int|
                        a0 <= aa < a && b0 <= bb <= b1 ==> !cell_face_exposed(
                            self.grid(),
                            along_axis,
                            layer as int,
                            aa,
                            bb,
                            positive,
                        ),
                    forall|bb: int|
                        b0 <= bb < b ==> !cell_face_exposed(
                            self.grid(),
                            along_axis,
                            layer as int,
                            a as int,
                            bb,
                            positive,
                        ),
                decreases b1 + 1 - b,
            {
                if self.get_block_along_layer(along_axis, neighbour, a, b).should_skip_mesh() {
                    proof {
                        assert(cell_face_exposed(
                            self.grid(),
                            along_axis,
                            layer as int,
                            a as int,
                            b as int,
                            positive,
                        ));
                    }
                    return true;
                }
                b += 1;
            }
            a += 1;
        }
        false
    }

    /// The six vertices of one merged quad on the chunk lattice.
    /// `start_grid_pos` is the grid cell at the rectangle's low corner and
    /// `width`/`height` are the rectangle's extents along the first and
    /// second in-slice axes of the face's plane.
    pub fn get_quad_face_vertices(
        &self,
        start_grid_pos: (usize, usize, usize),
        width: usize,
        height: usize,
        texture_layer: BlockTextureIndex,
        face_direction: Direction,
    ) -> (q: Vec<ChunkMeshVertex>)
        requires
            start_grid_pos.0 < CHUNK_BLOCK_WIDTH,
            start_grid_pos.1 < CHUNK_BLOCK_WIDTH,
            start_grid_pos.2 < CHUNK_BLOCK_WIDTH,
            1 <= width <= CHUNK_BLOCK_WIDTH,
            1 <= height <= CHUNK_BLOCK_WIDTH,
        ensures
            q@ == quad_vertices(
                start_grid_pos.0 as int,
                start_grid_pos.1 as int,
                start_grid_pos.2 as int,
                width as int,
                height as int,
                texture_layer,
                face_direction,
            ),
    {
        let gx = start_grid_pos.0 as u32;
        let gy = start_grid_pos.1 as u32;
        let gz = start_grid_pos.2 as u32;
        let w = width as u32;
        let h = height as u32;
        let tex = texture_layer.layer();
        let (lower_left, lower_right, upper_right, upper_left) = match face_direction {
            Direction::North => (
                lattice_vertex(gx, gy, gz + 1, 0, h, tex),
                lattice_vertex(gx + w, gy, gz + 1, w, h, tex),
                lattice_vertex(gx + w, gy + h, gz + 1, w, 0, tex),
                lattice_vertex(gx, gy + h, gz + 1, 0, 0, tex),
            ),
            Direction::South => (
                lattice_vertex(gx + w, gy, gz, 0, h, tex),
                lattice_vertex(gx, gy, gz, w, h, tex),
                lattice_vertex(gx, gy + h, gz, w, 0, tex),
                lattice_vertex(gx + w, gy + h, gz, 0, 0, tex),
            ),
            Direction::East => (
                lattice_vertex(gx, gy, gz, 0, w, tex),
                lattice_vertex(gx, gy, gz + h, h, w, tex),
                lattice_vertex(gx, gy + w, gz + h, h, 0, tex),
                lattice_vertex(gx, gy + w, gz, 0, 0, tex),
            ),
            Direction::West => (
                lattice_vertex(gx + 1, gy, gz + h, 0, w, tex),
                lattice_vertex(gx + 1, gy, gz, h, w, tex),
                lattice_vertex(gx + 1, gy + w, gz, h, 0, tex),
                lattice_vertex(gx + 1, gy + w, gz + h, 0, 0, tex),
            ),
            Direction::Up => (
                lattice_vertex(gx + w, gy + 1, gz, 0, h, tex),
                lattice_vertex(gx, gy + 1, gz, w, h, tex),
                lattice_vertex(gx, gy + 1, gz + h, w, 0, tex),
                lattice_vertex(gx + w, gy + 1, gz + h, 0, 0, tex),
            ),
            Direction::Down => (
                lattice_vertex(gx, gy, gz, 0, h, tex),
                lattice_vertex(gx + w, gy, gz, w, h, tex),
                lattice_vertex(gx + w, gy, gz + h, w, 0, tex),
                lattice_vertex(gx, gy, gz + h, 0, 0, tex),
            ),
        };
        let mut q: Vec<ChunkMeshVertex> = Vec::new();
        q.push(lower_left);
        q.push(upper_right);
        q.push(upper_left);
        q.push(lower_left);
        q.push(lower_right);
        q.push(upper_right);
        proof {
            assert(q@ =~= quad_vertices(
                start_grid_pos.0 as int,
                start_grid_pos.1 as int,
                start_grid_pos.2 as int,
                width as int,
                height as int,
                texture_layer,
                face_direction,
            ));
        }
        q
    }

    /// Appends the quads of a finished rectangle to `vertices`: one merged
    /// quad for each of the axis's two face directions that has a texture
    /// for the block type and is exposed.
    fn emit_rect(
        &self,
        along_axis: Axis,
        layer: usize,
        a0: usize,
        b0: usize,
        a1: usize,
        b1: usize,
        t: BlockType,
        vertices: &mut Vec<ChunkMeshVertex>,
    )
        requires
            self.wf_grid(),
            layer < CHUNK_BLOCK_WIDTH,
            a0 <= a1 < CHUNK_BLOCK_WIDTH,
            b0 <= b1 < CHUNK_BLOCK_WIDTH,
        ensures
            final(vertices)@ == old(vertices)@ + rect_quads(
                self.grid(),
                along_axis,
                layer as int,
                a0 as int,
                b0 as int,
                a1 as int,
                b1 as int,
                t,
            ),
    {
        let ghost first_quad = crate::meshing::face_quad(
            self.grid(),
            along_axis,
            layer as int,
            a0 as int,
            b0 as int,
            a1 as int,
            b1 as int,
            t,
            crate::meshing::axis_directions(along_axis).0,
        );
        let ghost second_quad = crate::meshing::face_quad(
            self.grid(),
            along_axis,
            layer as int,
            a0 as int,
            b0 as int,
            a1 as int,
            b1 as int,
            t,
            crate::meshing::axis_directions(along_axis).1,
        );
        let width = a1 - a0 + 1;
        let height = b1 - b0 + 1;
        let (direction, other_direction) = match along_axis {
            Axis::X => (Direction::East, Direction::West),
            Axis::Y => (Direction::Up, Direction::Down),
            Axis::Z => (Direction::North, Direction::South),
        };
        let quad_start = match along_axis {
            Axis::X => (layer, a0, b0),
            Axis::Y => (a0, layer, b0),
            Axis::Z => (a0, b0, layer),
        };
        proof {
            assert(direction == crate::meshing::axis_directions(along_axis).0);
            assert(other_direction == crate::meshing::axis_directions(along_axis).1);
            assert((quad_start.0 as int, quad_start.1 as int, quad_start.2 as int)
                == crate::meshing::quad_start(along_axis, layer as int, a0 as int, b0 as int));
        }
        if let Ok(texture_layer) = BlockTextureIndex::from_type_and_direction(t, direction) {
            if self.face_exposed(along_axis, layer, a0, a1, b0, b1, direction.is_positive_side()) {
                let mut quad = self.get_quad_face_vertices(
                    quad_start,
                    width,
                    height,
                    texture_layer,
                    direction,
                );
                vertices.append(&mut quad);
            }
        }
        proof {
            assert(vertices@ =~= old(vertices)@ + first_quad);
        }
        let ghost after_first = vertices@;
        if let Ok(other_texture_layer) = BlockTextureIndex::from_type_and_direction(
            t,
            other_direction,
        ) {
            if self.face_exposed(
                along_axis,
                layer,
                a0,
                a1,
                b0,
                b1,
                other_direction.is_positive_side(),
            ) {
                let mut other_quad = self.get_quad_face_vertices(
                    quad_start,
                    width,
                    height,
                    other_texture_layer,
                    other_direction,
                );
                vertices.append(&mut other_quad);
            }
        }
        proof {
            assert(vertices@ =~= after_first + second_quad);
            assert(vertices@ =~= old(vertices)@ + (first_quad + second_quad));
        }
    }

    /// Runs the row-major greedy scan of one slice and returns everything
    /// it emits.
    fn mesh_slice(&self, along_axis: Axis, layer: usize) -> (vertices: Vec<ChunkMeshVertex>)
        requires
            self.wf_grid(),
            layer < CHUNK_BLOCK_WIDTH,
        ensures
            vertices@ == layer_mesh(self.grid(), along_axis, layer as int),
    {
        let ghost g = self.grid();
        let mut vertices: Vec<ChunkMeshVertex> = Vec::new();
        let mut visited_mask: Vec<bool> = vec![false; CHUNK_BLOCK_WIDTH * CHUNK_BLOCK_WIDTH];
        let ghost mut vis: Set<(int, int)> = Set::empty();
        proof {
            assert forall|n: int| 0 <= n < visited_mask@.len() implies !(#[trigger] visited_mask@[
                n]) by {
                assert(cloned(false, visited_mask@[n]));
            }
            assert(vertices@ + scan_slice(g, along_axis, layer as int, vis, 0, 0) =~= layer_mesh(
                g,
                along_axis,
                layer as int,
            ));
        }
        let mut i: usize = 0;
        while i < CHUNK_BLOCK_WIDTH
            invariant
                self.wf_grid(),
                g == self.grid(),
                layer < CHUNK_BLOCK_WIDTH,
                i <= CHUNK_BLOCK_WIDTH,
                visited_mask@.len() == CHUNK_BLOCK_WIDTH * CHUNK_BLOCK_WIDTH,
                forall|aa: int, bb: int|
                    0 <= aa < chunk_width() && 0 <= bb < chunk_width() ==> visited_mask@[
                        #[trigger] mask_index(aa, bb)] == vis.contains((aa, bb)),
                vertices@ + scan_slice(g, along_axis, layer as int, vis, i as int, 0)
                    == layer_mesh(g, along_axis, layer as int),
            decreases CHUNK_BLOCK_WIDTH - i,
        {
            let mut j: usize = 0;
            while j < CHUNK_BLOCK_WIDTH
                invariant
                    self.wf_grid(),
                    g == self.grid(),
                    layer < CHUNK_BLOCK_WIDTH,
                    i < CHUNK_BLOCK_WIDTH,
                    j <= CHUNK_BLOCK_WIDTH,
                    visited_mask@.len() == CHUNK_BLOCK_WIDTH * CHUNK_BLOCK_WIDTH,
                    forall|aa: int, bb: int|
                        0 <= aa < chunk_width() && 0 <= bb < chunk_width() ==> visited_mask@[
                            #[trigger] mask_index(aa, bb)] == vis.contains((aa, bb)),
                    vertices@ + scan_slice(g, along_axis, layer as int, vis, i as int, j as int)
                        == layer_mesh(g, along_axis, layer as int),
                decreases CHUNK_BLOCK_WIDTH - j,
            {
                let reference_block = self.get_block_along_layer(along_axis, layer, i, j);
                let idx = i * CHUNK_BLOCK_WIDTH + j;
                assert(idx == mask_index(i as int, j as int));
                if reference_block.should_skip_mesh() || visited_mask[idx] {
                    proof {
                        assert(scan_slice(g, along_axis, layer as int, vis, i as int, j as int)
                            == scan_slice(g, along_axis, layer as int, vis, i as int, j + 1));
                    }
                } else {
                    let t = reference_block.block_type;
                    let e = self.grow_width(along_axis, layer, i, j, t);
                    let f = self.grow_height(along_axis, layer, i, e, j, t);
                    let ghost vis0 = vis;
                    mark_visited(&mut visited_mask, i, e, j, f);
                    proof {
                        vis = vis0.union(rect_cells(i as int, e as int, j as int, f as int));
                        assert forall|aa: int, bb: int|
                            0 <= aa < chunk_width() && 0 <= bb < chunk_width() implies visited_mask@[
                            #[trigger] mask_index(aa, bb)] == vis.contains((aa, bb)) by {
                            assert(rect_cells(i as int, e as int, j as int, f as int).contains(
                                (aa, bb),
                            ) == crate::meshing::in_rect(
                                i as int,
                                e as int,
                                j as int,
                                f as int,
                                aa,
                                bb,
                            ));
                        }
                    }
                    let ghost verts0 = vertices@;
                    self.emit_rect(along_axis, layer, i, j, e, f, t, &mut vertices);
                    proof {
                        assert(scan_slice(g, along_axis, layer as int, vis0, i as int, j as int)
                            == rect_quads(
                            g,
                            along_axis,
                            layer as int,
                            i as int,
                            j as int,
                            e as int,
                            f as int,
                            t,
                        ) + scan_slice(g, along_axis, layer as int, vis, i as int, j + 1));
                        assert(vertices@ + scan_slice(g, along_axis, layer as int, vis, i as int, j + 1)
                            =~= verts0 + scan_slice(g, along_axis, layer as int, vis0, i as int, j as int));
                    }
                }
                j += 1;
            }
            proof {
                assert(scan_slice(g, along_axis, layer as int, vis, i as int, chunk_width())
                    == scan_slice(g, along_axis, layer as int, vis, i + 1, 0));
            }
            i += 1;
        }
        proof {
            assert(scan_slice(g, along_axis, layer as int, vis, chunk_width(), 0)
                == Seq::<ChunkMeshVertex>::empty());
            assert(vertices@ =~= vertices@ + scan_slice(
                g,
                along_axis,
                layer as int,
                vis,
                chunk_width(),
                0,
            ));
        }
        vertices
    }

    /// One full axis pass of greedy meshing: scans every layer along the
    /// axis in order and returns the merged quads of both face directions
    /// normal to it.
    pub fn get_greedy_mesh_along_axis(&self, along_axis: Axis) -> (vertices: Vec<
        ChunkMeshVertex,
    >)
        requires
            self.wf_grid(),
        ensures
            vertices@ == axis_mesh(self.grid(), along_axis),
    {
        let mut vertices: Vec<ChunkMeshVertex> = Vec::new();
        proof {
            assert(vertices@ + axis_mesh_from(self.grid(), along_axis, 0) =~= axis_mesh(
                self.grid(),
                along_axis,
            ));
        }
        let mut layer: usize = 0;
        while layer < CHUNK_BLOCK_WIDTH
            invariant
                self.wf_grid(),
                layer <= CHUNK_BLOCK_WIDTH,
                vertices@ + axis_mesh_from(self.grid(), along_axis, layer as int) == axis_mesh(
                    self.grid(),
                    along_axis,
                ),
            decreases CHUNK_BLOCK_WIDTH - layer,
        {
            let ghost verts0 = vertices@;
            let mut layer_vertices = self.mesh_slice(along_axis, layer);
            vertices.append(&mut layer_vertices);
            proof {
                assert(axis_mesh_from(self.grid(), along_axis, layer as int) == layer_mesh(
                    self.grid(),
                    along_axis,
                    layer as int,
                ) + axis_mesh_from(self.grid(), along_axis, layer + 1));
                assert(vertices@ + axis_mesh_from(self.grid(), along_axis, layer + 1) =~= verts0
                    + axis_mesh_from(self.grid(), along_axis, layer as int));
            }
            layer += 1;
        }
        proof {
            assert(axis_mesh_from(self.grid(), along_axis, chunk_width())
                == Seq::<ChunkMeshVertex>::empty());
            assert(vertices@ =~= vertices@ + axis_mesh_from(
                self.grid(),
                along_axis,
                chunk_width(),
            ));
        }
        vertices
    }

    /// Rebuilds the stored mesh from the current grid: the X, Y and Z axis
    /// passes concatenated. Only `logic` calls this, when the chunk is
    /// dirty.
    fn make_greedy_mesh(&mut self)
        requires
            old(self).wf_grid(),
        ensures
            final(self).blocks == old(self).blocks,
            final(self).needs_mesh_update == old(self).needs_mesh_update,
            final(self).mesh_builds == old(self).mesh_builds,
            final(self).chunk_i == old(self).chunk_i,
            final(self).chunk_j == old(self).chunk_j,
            final(self).chunk_k == old(self).chunk_k,
            final(self).block_mesh@ == chunk_mesh(old(self).grid()),
            final(self).vertex_count == final(self).block_mesh@.len(),
    {
        let mut vertices: Vec<ChunkMeshVertex> = Vec::new();
        let mut x_vertices = self.get_greedy_mesh_along_axis(Axis::X);
        vertices.append(&mut x_vertices);
        let mut y_vertices = self.get_greedy_mesh_along_axis(Axis::Y);
        vertices.append(&mut y_vertices);
        let mut z_vertices = self.get_greedy_mesh_along_axis(Axis::Z);
        vertices.append(&mut z_vertices);
        proof {
            assert(vertices@ =~= chunk_mesh(self.grid()));
        }
        self.vertex_count = vertices.len();
        self.block_mesh = vertices;
    }

    /// The per-tick logic step: if a voxel changed since the last rebuild,
    /// rebuild the mesh now and clear the dirty flag; otherwise do nothing
    /// at all. This is the only place mesh rebuilding happens, so render
    /// code never waits on mesh work that could have been avoided.
    pub fn logic(&mut self)
        requires
            old(self).wf(),
        ensures
            final(self).wf(),
            final(self).grid() == old(self).grid(),
            !final(self).spec_needs_mesh_update(),
            final(self).mesh_view() == chunk_mesh(old(self).grid()),
            mesh_in_lattice(final(self).mesh_view()),
            final(self).spec_vertex_count() == final(self).mesh_view().len(),
            !old(self).spec_needs_mesh_update() ==> *final(self) == *old(self),
            old(self).spec_needs_mesh_update() && old(self).spec_mesh_builds() < u64::MAX
                ==> final(self).spec_mesh_builds() == old(self).spec_mesh_builds() + 1,
            old(self).spec_needs_mesh_update() && old(self).spec_mesh_builds() == u64::MAX
                ==> final(self).spec_mesh_builds() == u64::MAX,
            forall|x: i64, y: i64, z: i64|
                #[trigger] final(self).at_coords(x, y, z) == old(self).at_coords(x, y, z),
    {
        proof {
            lemma_chunk_mesh_in_lattice(old(self).grid());
        }
        if self.needs_mesh_update {
            self.make_greedy_mesh();
            self.needs_mesh_update = false;
            if self.mesh_builds < u64::MAX {
                self.mesh_builds = self.mesh_builds + 1;
            }
        }
    }
}


/// Builds one lattice vertex.
fn lattice_vertex(x: u32, y: u32, z: u32, u: u32, v: u32, texture_layer: u32) -> (r:
    ChunkMeshVertex)
    ensures
        r == (ChunkMeshVertex { x, y, z, u, v, texture_layer }),
{
    ChunkMeshVertex { x, y, z, u, v, texture_layer }
}

/// Marks every cell of the rectangle `[a0, a1] x [b0, b1]` as visited in
/// the slice mask; all other cells keep their previous state.
fn mark_visited(mask: &mut Vec<bool>, a0: usize, a1: usize, b0: usize, b1: usize)
    requires
        old(mask)@.len() == CHUNK_BLOCK_WIDTH * CHUNK_BLOCK_WIDTH,
        a0 <= a1 < CHUNK_BLOCK_WIDTH,
        b0 <= b1 < CHUNK_BLOCK_WIDTH,
    ensures
        final(mask)@.len() == old(mask)@.len(),
        forall|aa: int, bb: int|
            0 <= aa < chunk_width() && 0 <= bb < chunk_width() ==> final(mask)@[#[trigger] mask_index(
                aa,
                bb,
            )] == (old(mask)@[mask_index(aa, bb)] || crate::meshing::in_rect(
                a0 as int,
                a1 as int,
                b0 as int,
                b1 as int,
                aa,
                bb,
            )),
{
    let mut a = a0;
    while a <= a1
        invariant
            mask@.len() == CHUNK_BLOCK_WIDTH * CHUNK_BLOCK_WIDTH,
            a0 <= a <= a1 + 1,
            a1 < CHUNK_BLOCK_WIDTH,
            b0 <= b1 < CHUNK_BLOCK_WIDTH,
            forall|aa: int, bb: int|
                0 <= aa < chunk_width() && 0 <= bb < chunk_width() ==> mask@[#[trigger] mask_index(
                    aa,
                    bb,
                )] == (old(mask)@[mask_index(aa, bb)] || (crate::meshing::in_rect(
                    a0 as int,
                    a1 as int,
                    b0 as int,
                    b1 as int,
                    aa,
                    bb,
                ) && aa < a)),
        decreases a1 + 1 - a,
    {
        let mut b = b0;
        while b <= b1
            invariant
                mask@.len() == CHUNK_BLOCK_WIDTH * CHUNK_BLOCK_WIDTH,
                a0 <= a <= a1,
                a1 < CHUNK_BLOCK_WIDTH,
                b0 <= b <= b1 + 1,
                b1 < CHUNK_BLOCK_WIDTH,
                forall|aa: int, bb: int|
                    0 <= aa < chunk_width() && 0 <= bb < chunk_width() ==> mask@[
                        #[trigger] mask_index(aa, bb)] == (old(mask)@[mask_index(aa, bb)] || (
                    crate::meshing::in_rect(
                        a0 as int,
                        a1 as int,
                        b0 as int,
                        b1 as int,
                        aa,
                        bb,
                    ) && (aa < a || (aa == a && bb < b)))),
            decreases b1 + 1 - b,
        {
            let idx = a * CHUNK_BLOCK_WIDTH + b;
            assert(idx == mask_index(a as int, b as int));
            mask.set(idx, true);
            proof {
                assert forall|aa: int, bb: int|
                    0 <= aa < chunk_width() && 0 <= bb < chunk_width() && mask_index(aa, bb)
                        == mask_index(a as int, b as int) implies aa == a && bb == b by {
                }
            }
            b += 1;
        }
        a += 1;
    }
}

} // verus!
