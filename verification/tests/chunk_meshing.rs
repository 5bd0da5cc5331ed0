use chicky_chicky::blocks::{Block, BlockType};
use chicky_chicky::chunk::{Chunk, ChunkMeshVertex, CHUNK_BLOCK_WIDTH};
use chicky_chicky::world::Axis;

fn vertex(x: u32, y: u32, z: u32, u: u32, v: u32, texture_layer: u32) -> ChunkMeshVertex {
    ChunkMeshVertex { x, y, z, u, v, texture_layer }
}

#[test]
fn voxel_round_trip() {
    let mut c = Chunk::new(0, 0, 0);
    let stone = Block::from(BlockType::Stone);
    c.set(3, 4, 5, stone);
    assert_eq!(c.at(3, 4, 5), stone);
    // the write touched nothing else
    assert_eq!(c.at(3, 4, 4).block_type, BlockType::Air);
    assert_eq!(c.at(2, 4, 5).block_type, BlockType::Air);
    assert_eq!(c.at(3, 5, 5).block_type, BlockType::Air);
}

#[test]
fn voxel_round_trip_at_bounds() {
    let mut c = Chunk::new(0, 0, 0);
    let sand = Block::from(BlockType::Sand);
    let last = CHUNK_BLOCK_WIDTH - 1;
    c.set(last, last, last, sand);
    assert_eq!(c.at(last, last, last), sand);
    c.set(0, 0, 0, sand);
    assert_eq!(c.at(0, 0, 0), sand);
}

#[test]
fn all_air_chunk_meshes_to_nothing() {
    let mut c = Chunk::new(0, 0, 0);
    c.logic();
    assert_eq!(c.vertex_count(), 0);
    assert!(c.vertices().is_empty());
}

#[test]
fn dirty_flag_discipline() {
    let mut c = Chunk::generate(0, 0, 0);
    assert!(c.needs_mesh_update());
    assert_eq!(c.mesh_build_count(), 0);

    c.logic();
    assert!(!c.needs_mesh_update());
    assert_eq!(c.mesh_build_count(), 1);

    // a second logic call with no intervening set rebuilds nothing
    c.logic();
    assert!(!c.needs_mesh_update());
    assert_eq!(c.mesh_build_count(), 1);

    c.set(0, 0, 0, Block::from(BlockType::Air));
    assert!(c.needs_mesh_update());
    c.logic();
    assert!(!c.needs_mesh_update());
    assert_eq!(c.mesh_build_count(), 2);
}

#[test]
fn generated_slab_meshes_to_six_quads() {
    // The generated chunk is a half-height slab: greedy meshing must merge
    // each of its six exposed faces into a single quad, 36 vertices in
    // all, instead of one quad per block face.
    let mut c = Chunk::generate(0, 0, 0);
    c.logic();
    assert_eq!(c.vertex_count(), 36);
    assert_eq!(c.vertices().len(), 36);
}

#[test]
fn slab_y_pass_is_one_up_and_one_down_quad() {
    // Along the Y axis the slab yields exactly one merged quad for the Up
    // face (at the slab's top surface, grass texture) and one for the Down
    // face (at the chunk floor, dirt texture) — no internal faces between
    // the slab's own grass layers.
    let c = Chunk::generate(0, 0, 0);
    let verts = c.get_greedy_mesh_along_axis(Axis::Y);
    assert_eq!(verts.len(), 12);

    // Down face of layer 0: on the lattice plane y == 0, dirt (layer 0),
    // texture coordinates tiling the whole 32 x 32 rectangle.
    let down = &verts[0..6];
    assert!(down.iter().all(|v| v.y == 0 && v.texture_layer == 0));
    assert_eq!(down[0], vertex(0, 0, 0, 0, 32, 0));
    assert_eq!(down[1], vertex(32, 0, 32, 32, 0, 0));
    assert_eq!(down[2], vertex(0, 0, 32, 0, 0, 0));
    assert_eq!(down[3], vertex(0, 0, 0, 0, 32, 0));
    assert_eq!(down[4], vertex(32, 0, 0, 32, 32, 0));
    assert_eq!(down[5], vertex(32, 0, 32, 32, 0, 0));

    // Up face of layer 15: on the lattice plane y == 16, grass (layer 1).
    let up = &verts[6..12];
    assert!(up.iter().all(|v| v.y == 16 && v.texture_layer == 1));
    assert_eq!(up[0], vertex(32, 16, 0, 0, 32, 1));
    assert_eq!(up[1], vertex(0, 16, 32, 32, 0, 1));
    assert_eq!(up[2], vertex(32, 16, 32, 0, 0, 1));
    assert_eq!(up[3], vertex(32, 16, 0, 0, 32, 1));
    assert_eq!(up[4], vertex(0, 16, 0, 32, 32, 1));
    assert_eq!(up[5], vertex(0, 16, 32, 32, 0, 1));
}

#[test]
fn slab_x_pass_merges_ends_only() {
    // Along X only the two end layers of the slab have exposed faces;
    // interior layers are fully covered by their neighbours and emit
    // nothing.
    let c = Chunk::generate(0, 0, 0);
    let verts = c.get_greedy_mesh_along_axis(Axis::X);
    assert_eq!(verts.len(), 12);
    // East face at x == 0, grass side texture
    assert!(verts[0..6].iter().all(|v| v.x == 0 && v.texture_layer == 1));
    // West face at x == 32
    assert!(verts[6..12].iter().all(|v| v.x == 32 && v.texture_layer == 1));
}

#[test]
fn slab_east_quad_geometry() {
    // Exact corners of the merged East quad at x == 0: it covers the
    // slab's cross-section, y in 0..16 and z in 0..32, with texture
    // coordinates spanning the 32 x 16 face.
    let c = Chunk::generate(0, 0, 0);
    let verts = c.get_greedy_mesh_along_axis(Axis::X);
    assert_eq!(verts[0], vertex(0, 0, 0, 0, 16, 1));
    assert_eq!(verts[1], vertex(0, 16, 32, 32, 0, 1));
    assert_eq!(verts[2], vertex(0, 16, 0, 0, 0, 1));
    assert_eq!(verts[3], vertex(0, 0, 0, 0, 16, 1));
    assert_eq!(verts[4], vertex(0, 0, 32, 32, 16, 1));
    assert_eq!(verts[5], vertex(0, 16, 32, 32, 0, 1));
}

#[test]
fn slab_z_pass_merges_ends_only() {
    let c = Chunk::generate(0, 0, 0);
    let verts = c.get_greedy_mesh_along_axis(Axis::Z);
    assert_eq!(verts.len(), 12);
    // South face on the lattice plane z == 0, North face on z == 32
    assert!(verts[0..6].iter().all(|v| v.z == 0 && v.texture_layer == 1));
    assert!(verts[6..12].iter().all(|v| v.z == 32 && v.texture_layer == 1));
}

#[test]
fn single_block_meshes_to_cube() {
    let mut c = Chunk::new(0, 0, 0);
    c.set(0, 0, 0, Block::from(BlockType::Grass));
    c.logic();
    // six faces, one unit quad each
    assert_eq!(c.vertex_count(), 36);
    // every vertex sits on the unit cube's lattice corners
    assert!(c.vertices().iter().all(|v| v.x <= 1 && v.y <= 1 && v.z <= 1));
    // exactly one face (the bottom) uses the dirt texture
    let dirt = c.vertices().iter().filter(|v| v.texture_layer == 0).count();
    assert_eq!(dirt, 6);
}

#[test]
fn greedy_merge_is_width_first() {
    // Three grass blocks in an L on the chunk floor: the scan must merge
    // the two blocks along the first in-slice axis (x) into one 2 x 1
    // rectangle, and leave the third as its own 1 x 1 rectangle — not the
    // other way round.
    let mut c = Chunk::new(0, 0, 0);
    let grass = Block::from(BlockType::Grass);
    c.set(0, 0, 0, grass);
    c.set(1, 0, 0, grass);
    c.set(0, 0, 1, grass);
    let verts = c.get_greedy_mesh_along_axis(Axis::Y);
    // two rectangles, each with an Up and a Down face
    assert_eq!(verts.len(), 24);
    // the first rectangle's Up quad spans x = 0..2, z = 0..1
    let up_first: Vec<_> = verts.iter().filter(|v| v.y == 1 && v.x == 2).collect();
    assert!(!up_first.is_empty());
    assert!(verts.iter().all(|v| v.z <= 2));
}

#[test]
fn mesh_skips_untextured_block_types() {
    // Leaves have no texture mapping in any direction, so a leaves block
    // contributes no quads at all — a silent skip, not an error.
    let mut c = Chunk::new(0, 0, 0);
    c.set(0, 0, 0, Block::from(BlockType::Leaves));
    c.logic();
    assert_eq!(c.vertex_count(), 0);
}

#[test]
fn buried_faces_are_culled() {
    // Two stacked grass blocks: the faces where they touch are not
    // exposed and must not be emitted. Each side face merges into one
    // 1 x 2 quad, plus one top and one bottom quad: 6 quads in all.
    let mut c = Chunk::new(0, 0, 0);
    let grass = Block::from(BlockType::Grass);
    c.set(0, 0, 0, grass);
    c.set(0, 1, 0, grass);
    c.logic();
    assert_eq!(c.vertex_count(), 36);
}
