//! Behaviours that game objects can opt into.

use vstd::prelude::*;

verus! {

/// Flammable can be added to objects that can be ignited. Flammables will
/// ignite any neighbouring Flammables as well.
pub trait Flammable {
    /// Sets the object on fire.
    fn ignite(&mut self);

    /// Whether the object is currently on fire.
    fn ignited(&self) -> bool;
}

} // verus!
