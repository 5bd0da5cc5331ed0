//! The block texture catalogue: which texture layer a block face uses.

use vstd::prelude::*;
use crate::blocks::BlockType;
use crate::world::Direction;

verus! {

/// Position of a block texture inside the block texture array. The order
/// here matches the layer order the render side loads the images in.
#[derive(Clone, Copy, Debug, PartialEq, Eq, Structural)]
pub enum BlockTextureIndex {
    Dirt,
    Grass,
    Stone,
    Sand,
}

/// Error returned when a block type has no texture for a requested face.
/// Callers treat this as "draw nothing", not as a failure.
#[derive(Clone, Copy, Debug, PartialEq, Eq, Structural)]
pub struct NoSuchBlockTextureError {
    pub for_type: BlockType,
}

impl NoSuchBlockTextureError {
    /// A human-readable description of the error.
    pub fn message(&self) -> String {
        let text = match self.for_type {
            BlockType::Air => "no texture available for block type `Air`",
            BlockType::Sand => "no texture available for block type `Sand`",
            BlockType::Dirt => "no texture available for block type `Dirt`",
            BlockType::Grass => "no texture available for block type `Grass`",
            BlockType::Stone => "no texture available for block type `Stone`",
            BlockType::Cobblestone => "no texture available for block type `Cobblestone`",
            BlockType::CoalOre => "no texture available for block type `CoalOre`",
            BlockType::IronOre => "no texture available for block type `IronOre`",
            BlockType::CopperOre => "no texture available for block type `CopperOre`",
            BlockType::GoldOre => "no texture available for block type `GoldOre`",
            BlockType::DiamondOre => "no texture available for block type `DiamondOre`",
            BlockType::Wood => "no texture available for block type `Wood`",
            BlockType::WoodPlanks => "no texture available for block type `WoodPlanks`",
            BlockType::Furnace => "no texture available for block type `Furnace`",
            BlockType::Leaves => "no texture available for block type `Leaves`",
            BlockType::Glass => "no texture available for block type `Glass`",
        };
        text.to_owned()
    }
}

impl BlockTextureIndex {
    /// Texture for the top (`Up`) face of a block type, if any.
    pub open spec fn spec_get_top(ty: BlockType) -> Result<
        BlockTextureIndex,
        NoSuchBlockTextureError,
    > {
        match ty {
            BlockType::Sand => Ok(BlockTextureIndex::Sand),
            BlockType::Dirt => Ok(BlockTextureIndex::Dirt),
            BlockType::Grass => Ok(BlockTextureIndex::Grass),
            BlockType::Stone => Ok(BlockTextureIndex::Stone),
            _ => Err(NoSuchBlockTextureError { for_type: ty }),
        }
    }

    /// Texture for the bottom (`Down`) face: grass blocks show dirt below.
    pub open spec fn spec_get_bottom(ty: BlockType) -> Result<
        BlockTextureIndex,
        NoSuchBlockTextureError,
    > {
        match ty {
            BlockType::Sand => Ok(BlockTextureIndex::Sand),
            BlockType::Dirt => Ok(BlockTextureIndex::Dirt),
            BlockType::Grass => Ok(BlockTextureIndex::Dirt),
            BlockType::Stone => Ok(BlockTextureIndex::Stone),
            _ => Err(NoSuchBlockTextureError { for_type: ty }),
        }
    }

    /// Texture for any of the four side faces of a block type, if any.
    pub open spec fn spec_get_side(ty: BlockType) -> Result<
        BlockTextureIndex,
        NoSuchBlockTextureError,
    > {
        match ty {
            BlockType::Sand => Ok(BlockTextureIndex::Sand),
            BlockType::Dirt => Ok(BlockTextureIndex::Dirt),
            BlockType::Grass => Ok(BlockTextureIndex::Grass),
            BlockType::Stone => Ok(BlockTextureIndex::Stone),
            _ => Err(NoSuchBlockTextureError { for_type: ty }),
        }
    }

    /// The texture a face of block type `ty` pointing in `direction` uses:
    /// the top texture for `Up`, the bottom one for `Down`, and the side
    /// texture for the four horizontal directions.
    pub open spec fn spec_from_type_and_direction(ty: BlockType, direction: Direction) -> Result<
        BlockTextureIndex,
        NoSuchBlockTextureError,
    > {
        match direction {
            Direction::Up => Self::spec_get_top(ty),
            Direction::Down => Self::spec_get_bottom(ty),
            _ => Self::spec_get_side(ty),
        }
    }

    pub fn get_top(ty: BlockType) -> (r: Result<BlockTextureIndex, NoSuchBlockTextureError>)
        ensures
            r == Self::spec_get_top(ty),
    {
        match ty {
            BlockType::Sand => Ok(BlockTextureIndex::Sand),
            BlockType::Dirt => Ok(BlockTextureIndex::Dirt),
            BlockType::Grass => Ok(BlockTextureIndex::Grass),
            BlockType::Stone => Ok(BlockTextureIndex::Stone),
            _ => Err(NoSuchBlockTextureError { for_type: ty }),
        }
    }

    pub fn get_bottom(ty: BlockType) -> (r: Result<BlockTextureIndex, NoSuchBlockTextureError>)
        ensures
            r == Self::spec_get_bottom(ty),
    {
        match ty {
            BlockType::Sand => Ok(BlockTextureIndex::Sand),
            BlockType::Dirt => Ok(BlockTextureIndex::Dirt),
            BlockType::Grass => Ok(BlockTextureIndex::Dirt),
            BlockType::Stone => Ok(BlockTextureIndex::Stone),
            _ => Err(NoSuchBlockTextureError { for_type: ty }),
        }
    }

    pub fn get_side(ty: BlockType) -> (r: Result<BlockTextureIndex, NoSuchBlockTextureError>)
        ensures
            r == Self::spec_get_side(ty),
    {
        match ty {
            BlockType::Sand => Ok(BlockTextureIndex::Sand),
            BlockType::Dirt => Ok(BlockTextureIndex::Dirt),
            BlockType::Grass => Ok(BlockTextureIndex::Grass),
            BlockType::Stone => Ok(BlockTextureIndex::Stone),
            _ => Err(NoSuchBlockTextureError { for_type: ty }),
        }
    }

    /// Looks up the texture for a block face, `Err` when the block type has
    /// none for that direction.
    pub fn from_type_and_direction(ty: BlockType, direction: Direction) -> (r: Result<
        BlockTextureIndex,
        NoSuchBlockTextureError,
    >)
        ensures
            r == Self::spec_from_type_and_direction(ty, direction),
    {
        match direction {
            Direction::Up => Self::get_top(ty),
            Direction::Down => Self::get_bottom(ty),
            _ => Self::get_side(ty),
        }
    }

    /// The texture named after a block type, for the types that have one.
    pub open spec fn spec_try_from(t: BlockType) -> Result<
        BlockTextureIndex,
        NoSuchBlockTextureError,
    > {
        match t {
            BlockType::Dirt => Ok(BlockTextureIndex::Dirt),
            BlockType::Grass => Ok(BlockTextureIndex::Grass),
            BlockType::Stone => Ok(BlockTextureIndex::Stone),
            BlockType::Sand => Ok(BlockTextureIndex::Sand),
            _ => Err(NoSuchBlockTextureError { for_type: t }),
        }
    }

    /// The layer this texture occupies in the block texture array.
    pub open spec fn spec_layer(&self) -> u32 {
        match self {
            BlockTextureIndex::Dirt => 0,
            BlockTextureIndex::Grass => 1,
            BlockTextureIndex::Stone => 2,
            BlockTextureIndex::Sand => 3,
        }
    }

    #[verifier::when_used_as_spec(spec_layer)]
    pub fn layer(&self) -> (r: u32)
        ensures
            r == self.spec_layer(),
    {
        match self {
            BlockTextureIndex::Dirt => 0,
            BlockTextureIndex::Grass => 1,
            BlockTextureIndex::Stone => 2,
            BlockTextureIndex::Sand => 3,
        }
    }
}

impl TryFrom<BlockType> for BlockTextureIndex {
    type Error = NoSuchBlockTextureError;

    /// The texture named after a block type, for types that have one.
    fn try_from(t: BlockType) -> (r: Result<BlockTextureIndex, NoSuchBlockTextureError>)
        ensures
            r == BlockTextureIndex::spec_try_from(t),
    {
        match t {
            BlockType::Dirt => Ok(BlockTextureIndex::Dirt),
            BlockType::Grass => Ok(BlockTextureIndex::Grass),
            BlockType::Stone => Ok(BlockTextureIndex::Stone),
            BlockType::Sand => Ok(BlockTextureIndex::Sand),
            _ => Err(NoSuchBlockTextureError { for_type: t }),
        }
    }
}

impl vstd::std_specs::convert::TryFromSpecImpl<BlockType> for BlockTextureIndex {
    open spec fn obeys_try_from_spec() -> bool {
        true
    }

    open spec fn try_from_spec(t: BlockType) -> Result<
        BlockTextureIndex,
        NoSuchBlockTextureError,
    > {
        BlockTextureIndex::spec_try_from(t)
    }
}

} // verus!
