//! Entity identifiers.

use vstd::prelude::*;

verus! {

/// An identifier naming a bundle of components.
///
/// A world hands out identifiers in ascending order and never hands out the
/// same one twice, so an identifier stays dead once its entity is deleted.
#[derive(Clone, Copy, Debug, PartialEq, Eq, Structural, Hash)]
pub struct Entity {
    /// The number that identifies the entity.
    pub id: usize,
}

impl Entity {
    /// Make the entity with the given number.
    pub fn from_id(id: usize) -> (e: Entity)
        ensures
            e == (Entity { id }),
    {
        Entity { id }
    }

    /// The number that identifies this entity.
    pub fn index(self) -> (id: usize)
        ensures
            id == self.id,
    {
        self.id
    }
}

} // verus!
