//! The voxel data model: block type tags and the per-voxel state.

use vstd::prelude::*;

verus! {

/// The catalogue of block (voxel) types the world can hold. Only a few have
/// gameplay rules so far; the rest are reserved for later block kinds.
#[derive(Clone, Copy, Debug, PartialEq, Eq, Structural)]
pub enum BlockType {
    Air,
    Sand,
    Dirt,
    Grass,
    Stone,
    Cobblestone,
    CoalOre,
    IronOre,
    CopperOre,
    GoldOre,
    DiamondOre,
    Wood,
    WoodPlanks,
    Furnace,
    Leaves,
    Glass,
}

/// A single voxel: a type tag plus its current health in hit points.
///
/// A freshly made block starts at full health, `Block::lifespan_of` of its
/// type; `Air` carries no health at all.
#[derive(Clone, Copy, Debug, PartialEq, Eq, Structural)]
pub struct Block {
    pub block_type: BlockType,
    pub health: u32,
}

impl Block {
    /// Maximum health (hit points) of a block of the given type.
    pub open spec fn spec_lifespan_of(ty: BlockType) -> u32 {
        match ty {
            BlockType::Dirt => 10,
            BlockType::Grass => 15,
            BlockType::Stone => 50,
            BlockType::Sand => 5,
            _ => 0,
        }
    }

    /// Returns the maximum health of a block of type `ty`. Types without
    /// gameplay rules yet have no health to lose.
    #[verifier::when_used_as_spec(spec_lifespan_of)]
    pub fn lifespan_of(ty: BlockType) -> (r: u32)
        ensures
            r == Self::spec_lifespan_of(ty),
    {
        match ty {
            BlockType::Dirt => 10,
            BlockType::Grass => 15,
            BlockType::Stone => 50,
            BlockType::Sand => 5,
            _ => 0,
        }
    }

    /// The block value `Block::from(ty)` creates: full health for its type.
    pub open spec fn spec_from(ty: BlockType) -> Block {
        Block { block_type: ty, health: Self::spec_lifespan_of(ty) }
    }

    /// A block is well formed when its health never exceeds its lifespan.
    pub open spec fn wf(self) -> bool {
        self.health <= Self::spec_lifespan_of(self.block_type)
    }

    /// Whether the mesher should ignore this block entirely: air contributes
    /// no geometry.
    pub open spec fn spec_should_skip_mesh(&self) -> bool {
        self.block_type == BlockType::Air
    }

    #[verifier::when_used_as_spec(spec_should_skip_mesh)]
    pub fn should_skip_mesh(&self) -> (r: bool)
        ensures
            r == self.spec_should_skip_mesh(),
    {
        self.block_type == BlockType::Air
    }

    /// Whether light passes through the block.
    pub open spec fn spec_is_see_through(&self) -> bool {
        self.block_type == BlockType::Air || self.block_type == BlockType::Glass
    }

    #[verifier::when_used_as_spec(spec_is_see_through)]
    pub fn is_see_through(&self) -> (r: bool)
        ensures
            r == self.spec_is_see_through(),
    {
        match self.block_type {
            BlockType::Air | BlockType::Glass => true,
            _ => false,
        }
    }
}

impl From<BlockType> for Block {
    /// Makes a block of type `ty` at full health.
    fn from(ty: BlockType) -> (r: Block)
        ensures
            r == Block::spec_from(ty),
    {
        let lifespan = Block::lifespan_of(ty);
        Block { block_type: ty, health: lifespan }
    }
}

impl vstd::std_specs::convert::FromSpecImpl<BlockType> for Block {
    open spec fn obeys_from_spec() -> bool {
        true
    }

    open spec fn from_spec(ty: BlockType) -> Block {
        Block::spec_from(ty)
    }
}

} // verus!
