//! Character-facing state: what a character is doing and where it faces.
//! The characters themselves carry floating-point physics state and live
//! outside this crate; these tags are what the game logic dispatches on.

use vstd::prelude::*;

verus! {

/// A direction a character can be told to move in.
#[derive(Clone, Copy, Debug, PartialEq, Eq, Structural)]
pub enum Direction {
    Up,
    Down,
    Left,
    Right,
}

/// Specifies what a certain character is doing.
#[derive(Clone, Copy, Debug, PartialEq, Eq, Structural)]
pub enum CharacterAction {
    Nothing,
    Walk,
    Run,
    Squat,
    Climb,
    Fall,
    Attack,
    Hurt,
    Dying,
    Push,
    Sleep,
    Eat,
}

impl Default for CharacterAction {
    /// A character starts out doing nothing.
    fn default() -> (r: Self)
        ensures
            r == CharacterAction::Nothing,
    {
        CharacterAction::Nothing
    }
}

/// Right or left, telling which way a character (or whatever) is facing.
#[derive(Clone, Copy, Debug, PartialEq, Eq, Structural)]
pub enum FacingDirection {
    Right,
    Left,
}

impl Default for FacingDirection {
    /// A character starts out facing right.
    fn default() -> (r: Self)
        ensures
            r == FacingDirection::Right,
    {
        FacingDirection::Right
    }
}

} // verus!
