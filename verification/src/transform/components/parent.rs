//! The component that says which entity is the parent of its owner.

use vstd::prelude::*;
use crate::ecs::entity::Entity;

verus! {

/// Component that indicates the entity has a parent.
///
/// The entity stored here is the parent of the entity that owns the
/// component: it says that the owner *has* a parent, not that it is one.
#[derive(Clone, Copy, Debug, PartialEq, Eq, Structural)]
pub struct Parent(pub Entity);

impl Parent {
    /// Create a new instance with the given entity as the parent entity.
    pub fn new(parent: Entity) -> (p: Parent)
        ensures
            p == Parent(parent),
    {
        Parent(parent)
    }

    /// Get the entity stored inside.
    pub fn entity(self) -> (e: Entity)
        ensures
            e == self.0,
    {
        self.0
    }

    /// Replace the entity that is stored, and return the previous value.
    pub fn replace(&mut self, new_parent: Entity) -> (previous: Entity)
        ensures
            previous == old(self).0,
            *final(self) == Parent(new_parent),
    {
        let previous = self.0;
        self.0 = new_parent;
        previous
    }
}

} // verus!
