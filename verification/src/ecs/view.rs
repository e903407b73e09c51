//! The component store as specifications see it.

use vstd::prelude::*;
use crate::ecs::entity::Entity;
use crate::transform::components::parent::Parent;
use crate::transform::components::previous_parent::PreviousParent;

verus! {

/// A component value together with its change flag: whether the value was
/// written since the stage that reads it last consumed it.
#[derive(Debug)]
pub struct Written<T> {
    /// The value of the component.
    pub value: T,
    /// Whether the value was written since it was last consumed.
    pub changed: bool,
}

/// The components of one live entity.
#[verifier::ext_equal]
pub struct EntityView<P, R, M> {
    /// The parent pointer, with its change flag.
    pub parent: Option<Written<Parent>>,
    /// The parent that the last synchronization saw.
    pub previous_parent: Option<PreviousParent>,
    /// The identifiers of the children, in insertion order.
    pub children: Option<Seq<usize>>,
    /// The local position, with its change flag.
    pub position: Option<Written<P>>,
    /// The local rotation, with its change flag.
    pub rotation: Option<Written<R>>,
    /// The transform relative to the parent.
    pub parent_transform: Option<M>,
    /// The transform relative to the world origin.
    pub world_transform: Option<M>,
}

impl<P, R, M> EntityView<P, R, M> {
    /// An entity without any component.
    pub open spec fn bare() -> Self {
        EntityView {
            parent: None,
            previous_parent: None,
            children: None,
            position: None,
            rotation: None,
            parent_transform: None,
            world_transform: None,
        }
    }
}

/// The content of a component store: for each identifier handed out so far,
/// the components of the entity, or `None` once it is deleted.
#[verifier::ext_equal]
pub struct WorldView<P, R, M> {
    /// The entities by identifier.
    pub entities: Seq<Option<EntityView<P, R, M>>>,
}

impl<P, R, M> WorldView<P, R, M> {
    /// The number of identifiers handed out.
    pub open spec fn len(self) -> nat {
        self.entities.len()
    }

    /// The components of an entity, `None` if it is not alive.
    pub open spec fn get(self, e: Entity) -> Option<EntityView<P, R, M>> {
        if e.id < self.entities.len() {
            self.entities[e.id as int]
        } else {
            None
        }
    }

    /// Whether the entity is alive.
    pub open spec fn alive(self, e: Entity) -> bool {
        self.get(e) is Some
    }

    /// The store with the components of one identifier replaced.
    pub open spec fn put(self, e: Entity, v: EntityView<P, R, M>) -> Self {
        WorldView { entities: self.entities.update(e.id as int, Some(v)) }
    }

    /// The store with one entity deleted.
    pub open spec fn without(self, e: Entity) -> Self {
        if e.id < self.entities.len() {
            WorldView { entities: self.entities.update(e.id as int, None) }
        } else {
            self
        }
    }

    /// The parent that the entity points to, if it has a `Parent`.
    pub open spec fn parent_of(self, e: Entity) -> Option<Entity> {
        match self.get(e) {
            Some(v) => match v.parent {
                Some(w) => Some(w.value.0),
                None => None,
            },
            None => None,
        }
    }

    /// Whether the entity has a `Parent` that was written since the last
    /// synchronization.
    pub open spec fn parent_changed(self, e: Entity) -> bool {
        match self.get(e) {
            Some(v) => match v.parent {
                Some(w) => w.changed,
                None => false,
            },
            None => false,
        }
    }

    /// The `PreviousParent` of the entity, if it has one.
    pub open spec fn previous_parent_of(self, e: Entity) -> Option<PreviousParent> {
        match self.get(e) {
            Some(v) => v.previous_parent,
            None => None,
        }
    }

    /// The parent that the entity's `PreviousParent` remembers, if any.
    pub open spec fn remembered_parent(self, e: Entity) -> Option<Entity> {
        match self.previous_parent_of(e) {
            Some(p) => p.0,
            None => None,
        }
    }

    /// The child list of the entity, if it has a `Children`.
    pub open spec fn children_of(self, e: Entity) -> Option<Seq<usize>> {
        match self.get(e) {
            Some(v) => v.children,
            None => None,
        }
    }

    /// The local position of the entity, if it has one.
    pub open spec fn position_of(self, e: Entity) -> Option<P> {
        match self.get(e) {
            Some(v) => match v.position {
                Some(w) => Some(w.value),
                None => None,
            },
            None => None,
        }
    }

    /// Whether the entity has a position that was written since a local
    /// update last consumed it.
    pub open spec fn position_changed(self, e: Entity) -> bool {
        match self.get(e) {
            Some(v) => match v.position {
                Some(w) => w.changed,
                None => false,
            },
            None => false,
        }
    }

    /// The local rotation of the entity, if it has one.
    pub open spec fn rotation_of(self, e: Entity) -> Option<R> {
        match self.get(e) {
            Some(v) => match v.rotation {
                Some(w) => Some(w.value),
                None => None,
            },
            None => None,
        }
    }

    /// Whether the entity has a rotation that was written since a local
    /// update last consumed it.
    pub open spec fn rotation_changed(self, e: Entity) -> bool {
        match self.get(e) {
            Some(v) => match v.rotation {
                Some(w) => w.changed,
                None => false,
            },
            None => false,
        }
    }

    /// The transform of the entity relative to its parent, if it has one.
    pub open spec fn parent_transform_of(self, e: Entity) -> Option<M> {
        match self.get(e) {
            Some(v) => v.parent_transform,
            None => None,
        }
    }

    /// The transform of the entity relative to the world, if it has one.
    pub open spec fn world_transform_of(self, e: Entity) -> Option<M> {
        match self.get(e) {
            Some(v) => v.world_transform,
            None => None,
        }
    }

    /// Whether the entity bears a transform: it has a position or a rotation.
    pub open spec fn bears_transform(self, e: Entity) -> bool {
        match self.get(e) {
            Some(v) => v.position is Some || v.rotation is Some,
            None => false,
        }
    }
}

} // verus!
