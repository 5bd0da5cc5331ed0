//! Item taxonomy: tools, weapons, materials and craftable resources.

use vstd::prelude::*;

verus! {

/// An enum for determining types of tools.
#[derive(Clone, Copy, Debug, PartialEq, Eq, Structural)]
pub enum ToolType {
    Shovel,
    Axe,
    Pick,
    Hoe,
}

/// An enum for determining types of weapons.
#[derive(Clone, Copy, Debug, PartialEq, Eq, Structural)]
pub enum WeaponType {
    Sword,
    Bow,
    Arrow,
}

/// What something is made out of; applies mostly to tools and weapons.
#[derive(Clone, Copy, Debug, PartialEq, Eq, Structural)]
pub enum Material {
    Wood,
    Stone,
    Bronze,
    Brass,
    Steel,
    Gold,
    Diamond,
}

/// A Resource is something that can be crafted into something else. It
/// can't be placed down like a block, nor eaten like food.
#[derive(Clone, Copy, Debug, PartialEq, Eq, Structural)]
pub enum Resource {
    WoodPlanks,
    Rocks,
    Sticks,
    Aluminium,
    IronIngot,
    IronNugget,
    GoldIngot,
    GoldNugget,
    Diamond,
    Coal,
}

/// A tool: its kind, its material, and how much use it has left.
///
/// Invariant: `health <= lifespan`; a freshly made tool is at full health.
#[derive(Clone, Copy, Debug, PartialEq, Eq, Structural)]
pub struct Tool {
    pub tool_type: ToolType,
    pub material: Material,
    pub health: u32,
    pub lifespan: u32,
}

impl Tool {
    /// A tool never has more health than its lifespan.
    pub open spec fn wf(&self) -> bool {
        self.health <= self.lifespan
    }

    /// Makes a fresh tool at full health.
    pub fn new(tool_type: ToolType, material: Material, lifespan: u32) -> (t: Tool)
        ensures
            t == (Tool { tool_type, material, health: lifespan, lifespan }),
            t.wf(),
    {
        Tool { tool_type, material, health: lifespan, lifespan }
    }
}

} // verus!
