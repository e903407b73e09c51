//! The component that remembers the parent seen by the last synchronization.

use vstd::prelude::*;
use crate::ecs::entity::Entity;

verus! {

/// Component that stores the entity that was previously set as the parent.
///
/// It exists to find out how `Parent` changed; it is written by the
/// hierarchy synchronizer only and is never authoritative.
#[derive(Clone, Copy, Debug, PartialEq, Eq, Structural)]
pub struct PreviousParent(pub Option<Entity>);

impl PreviousParent {
    /// Create a new instance with `None` as its inner value.
    pub fn new() -> (p: PreviousParent)
        ensures
            p == PreviousParent(None),
    {
        PreviousParent(None)
    }

    /// Create a new instance with the given entity as the inner value.
    pub fn from_entity(entity: Entity) -> (p: PreviousParent)
        ensures
            p == PreviousParent(Some(entity)),
    {
        PreviousParent(Some(entity))
    }

    /// Get the value stored inside.
    pub fn inner(self) -> (e: Option<Entity>)
        ensures
            e == self.0,
    {
        self.0
    }
}

impl Default for PreviousParent {
    fn default() -> (p: PreviousParent)
        ensures
            p == PreviousParent(None),
    {
        PreviousParent(None)
    }
}

} // verus!
