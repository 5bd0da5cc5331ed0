use chicky_chicky::blocks::{Block, BlockType};
use chicky_chicky::textures::{BlockTextureIndex, NoSuchBlockTextureError};
use chicky_chicky::world::Direction;

#[test]
fn lifespans_match_block_types() {
    assert_eq!(Block::lifespan_of(BlockType::Dirt), 10);
    assert_eq!(Block::lifespan_of(BlockType::Grass), 15);
    assert_eq!(Block::lifespan_of(BlockType::Stone), 50);
    assert_eq!(Block::lifespan_of(BlockType::Sand), 5);
    assert_eq!(Block::lifespan_of(BlockType::Air), 0);
    assert_eq!(Block::lifespan_of(BlockType::Furnace), 0);
}

#[test]
fn fresh_blocks_start_at_full_health() {
    let b = Block::from(BlockType::Stone);
    assert_eq!(b.block_type, BlockType::Stone);
    assert_eq!(b.health, 50);
    let a = Block::from(BlockType::Air);
    assert_eq!(a.health, 0);
}

#[test]
fn only_air_skips_meshing() {
    assert!(Block::from(BlockType::Air).should_skip_mesh());
    assert!(!Block::from(BlockType::Grass).should_skip_mesh());
    assert!(!Block::from(BlockType::Glass).should_skip_mesh());
}

#[test]
fn air_and_glass_are_see_through() {
    assert!(Block::from(BlockType::Air).is_see_through());
    assert!(Block::from(BlockType::Glass).is_see_through());
    assert!(!Block::from(BlockType::Stone).is_see_through());
    assert!(!Block::from(BlockType::Leaves).is_see_through());
}

#[test]
fn texture_lookup_by_direction() {
    // grass shows grass on top and sides but dirt underneath
    assert_eq!(
        BlockTextureIndex::from_type_and_direction(BlockType::Grass, Direction::Up),
        Ok(BlockTextureIndex::Grass)
    );
    assert_eq!(
        BlockTextureIndex::from_type_and_direction(BlockType::Grass, Direction::Down),
        Ok(BlockTextureIndex::Dirt)
    );
    assert_eq!(
        BlockTextureIndex::from_type_and_direction(BlockType::Grass, Direction::North),
        Ok(BlockTextureIndex::Grass)
    );
    // the other textured types look the same from every side
    for dir in [
        Direction::Up,
        Direction::Down,
        Direction::North,
        Direction::South,
        Direction::East,
        Direction::West,
    ] {
        assert_eq!(
            BlockTextureIndex::from_type_and_direction(BlockType::Stone, dir),
            Ok(BlockTextureIndex::Stone)
        );
        assert_eq!(
            BlockTextureIndex::from_type_and_direction(BlockType::Sand, dir),
            Ok(BlockTextureIndex::Sand)
        );
        assert_eq!(
            BlockTextureIndex::from_type_and_direction(BlockType::Dirt, dir),
            Ok(BlockTextureIndex::Dirt)
        );
    }
}

#[test]
fn missing_texture_is_reported_not_fatal() {
    let err = BlockTextureIndex::from_type_and_direction(BlockType::Air, Direction::Up);
    assert_eq!(err, Err(NoSuchBlockTextureError { for_type: BlockType::Air }));
    let err = BlockTextureIndex::from_type_and_direction(BlockType::Glass, Direction::South);
    assert_eq!(err, Err(NoSuchBlockTextureError { for_type: BlockType::Glass }));
    assert_eq!(
        err.unwrap_err().message(),
        "no texture available for block type `Glass`"
    );
}

#[test]
fn texture_layers_are_stable() {
    assert_eq!(BlockTextureIndex::Dirt.layer(), 0);
    assert_eq!(BlockTextureIndex::Grass.layer(), 1);
    assert_eq!(BlockTextureIndex::Stone.layer(), 2);
    assert_eq!(BlockTextureIndex::Sand.layer(), 3);
}

#[test]
fn texture_index_try_from_block_type() {
    assert_eq!(
        BlockTextureIndex::try_from(BlockType::Sand),
        Ok(BlockTextureIndex::Sand)
    );
    assert_eq!(
        BlockTextureIndex::try_from(BlockType::Wood),
        Err(NoSuchBlockTextureError { for_type: BlockType::Wood })
    );
}
