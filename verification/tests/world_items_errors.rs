use chicky_chicky::blocks::BlockType;
use chicky_chicky::characters::{CharacterAction, FacingDirection};
use chicky_chicky::chunk::CHUNK_BLOCK_WIDTH;
use chicky_chicky::items::{Material, Tool, ToolType};
use chicky_chicky::render::ProgramAttrLocations;
use chicky_chicky::texture_error::TextureError;
use chicky_chicky::world::World;

#[test]
fn world_generates_each_coordinate_once() {
    let mut w = World::new(42);
    assert_eq!(w.chunk_count(), 0);
    let first = w.generate_chunk(0, 0, 0);
    assert_eq!(w.chunk_count(), 1);
    let again = w.generate_chunk(0, 0, 0);
    assert_eq!(again, first);
    assert_eq!(w.chunk_count(), 1);
    let other = w.generate_chunk(1, 0, -3);
    assert_ne!(other, first);
    assert_eq!(w.chunk_count(), 2);
}

#[test]
fn world_chunk_lookup() {
    let mut w = World::new(7);
    assert_eq!(w.chunk_index_at(5, 6, 7), None);
    let n = w.generate_chunk(5, 6, 7);
    assert_eq!(w.chunk_index_at(5, 6, 7), Some(n));
    let c = w.chunk_at_index(n);
    assert_eq!(c.grid_coords(), (5, 6, 7));
    // the generated chunk follows the placeholder terrain rule
    assert_eq!(
        c.at(0, CHUNK_BLOCK_WIDTH / 2 - 1, 0).block_type,
        BlockType::Grass
    );
    assert_eq!(c.at(0, CHUNK_BLOCK_WIDTH / 2, 0).block_type, BlockType::Air);
}

#[test]
fn render_distance_selects_nearby_chunks() {
    // render distance is 6 chunks: the cube around the eye spans
    // coordinates eye - 6 up to but not including eye + 6 on every axis
    let mut w = World::new(0);
    let near = w.generate_chunk(0, 0, 0);
    let far = w.generate_chunk(10, 0, 0);
    let edge_low = w.generate_chunk(-6, 0, 0);
    let edge_high = w.generate_chunk(6, 0, 0);
    let diagonal = w.generate_chunk(5, 5, 5);

    let drawn = w.chunks_in_render_distance(0, 0, 0);
    assert!(drawn.contains(&near));
    assert!(!drawn.contains(&far));
    assert!(drawn.contains(&edge_low));
    assert!(!drawn.contains(&edge_high));
    assert!(drawn.contains(&diagonal));
    assert_eq!(drawn.len(), 3);
}

#[test]
fn fresh_tools_are_whole() {
    let t = Tool::new(ToolType::Pick, Material::Diamond, 250);
    assert_eq!(t.tool_type, ToolType::Pick);
    assert_eq!(t.material, Material::Diamond);
    assert_eq!(t.health, 250);
    assert_eq!(t.lifespan, 250);
}

#[test]
fn character_state_defaults() {
    assert_eq!(CharacterAction::default(), CharacterAction::Nothing);
    assert_eq!(FacingDirection::default(), FacingDirection::Right);
}

#[test]
fn texture_error_messages() {
    let e = TextureError::from_message(String::from("texture too small"));
    assert_eq!(e.message(), "texture too small");

    let e = TextureError::from_error(String::from("bad png header"));
    assert_eq!(e.message(), "bad png header");

    let e = TextureError::from_error_with_detail(String::from("bad png header"), "loading dirt");
    assert_eq!(e.message(), "loading dirt: bad png header");

    let e = TextureError { error: None, detail: None };
    assert_eq!(e.message(), "texture error, but no information supplied");
}

#[test]
fn attribute_locations_round_trip() {
    let locations = ProgramAttrLocations::new(0, 1, 2, 3, 4, 5);
    assert_eq!(locations.perspective_matrix_location(), 0);
    assert_eq!(locations.camera_matrix_location(), 1);
    assert_eq!(locations.model_matrix_location(), 2);
    assert_eq!(locations.texture_location(), 3);
    assert_eq!(locations.sprite_frames_location(), 4);
    assert_eq!(locations.sprite_current_frame_location(), 5);
}
