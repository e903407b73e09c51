//! The component store: one record of components for each live entity.
//!
//! The store is generic in the types of the local position, the local
//! rotation and the transform matrix, which it only stores and hands out.

use vstd::prelude::*;
use crate::ecs::entity::Entity;
use crate::ecs::view::{EntityView, WorldView, Written};
use crate::transform::components::children::{other_than, Children};
use crate::transform::components::parent::Parent;
use crate::transform::components::previous_parent::PreviousParent;

verus! {

/// The components of one live entity.
struct Record<P, R, M> {
    parent: Option<Written<Parent>>,
    previous_parent: Option<PreviousParent>,
    children: Option<Children>,
    position: Option<Written<P>>,
    rotation: Option<Written<R>>,
    parent_transform: Option<M>,
    world_transform: Option<M>,
}

impl<P, R, M> Record<P, R, M> {
    spec fn view(&self) -> EntityView<P, R, M> {
        EntityView {
            parent: self.parent,
            previous_parent: self.previous_parent,
            children: match self.children {
                Some(c) => Some(c@),
                None => None,
            },
            position: self.position,
            rotation: self.rotation,
            parent_transform: self.parent_transform,
            world_transform: self.world_transform,
        }
    }
}

spec fn slot_view<P, R, M>(slot: Option<Record<P, R, M>>) -> Option<EntityView<P, R, M>> {
    match slot {
        Some(r) => Some(r@),
        None => None,
    }
}

/// The component store.
///
/// The entity with identifier `i` owns slot `i`; the slot is empty once the
/// entity is deleted, and stays so.
pub struct World<P, R, M> {
    slots: Vec<Option<Record<P, R, M>>>,
}

impl<P, R, M> World<P, R, M> {
    /// What the store holds.
    pub closed spec fn view(&self) -> WorldView<P, R, M> {
        WorldView { entities: Seq::new(self.slots@.len(), |i: int| slot_view(self.slots@[i])) }
    }

    /// A store never holds more entities than a machine can count.
    pub proof fn lemma_bounded(&self)
        ensures
            self@.len() <= usize::MAX,
    {
        assert(self.slots.len() == self.slots@.len());
    }

    /// Create a store without entities.
    pub fn new() -> (w: Self)
        ensures
            w@.entities == Seq::<Option<EntityView<P, R, M>>>::empty(),
    {
        let w = World { slots: Vec::new() };
        assert(w@.entities =~= Seq::<Option<EntityView<P, R, M>>>::empty());
        w
    }

    /// How many identifiers the store has handed out.
    pub fn len(&self) -> (n: usize)
        ensures
            n == self@.len(),
    {
        self.slots.len()
    }

    /// Create an entity without components.
    pub fn insert(&mut self) -> (e: Entity)
        ensures
            e.id == old(self)@.len(),
            final(self)@.entities == old(self)@.entities.push(Some(EntityView::bare())),
    {
        let id = self.slots.len();
        self.slots.push(
            Some(
                Record {
                    parent: None,
                    previous_parent: None,
                    children: None,
                    position: None,
                    rotation: None,
                    parent_transform: None,
                    world_transform: None,
                },
            ),
        );
        assert(self@.entities =~= old(self)@.entities.push(Some(EntityView::bare())));
        Entity { id }
    }

    /// Delete an entity with all its components. Returns whether it was alive.
    pub fn delete(&mut self, e: Entity) -> (was_alive: bool)
        ensures
            was_alive == old(self)@.alive(e),
            final(self)@ == old(self)@.without(e),
    {
        if e.id < self.slots.len() {
            let was_alive = self.slots[e.id].is_some();
            self.slots[e.id] = None;
            assert(self@.entities =~= old(self)@.without(e).entities);
            was_alive
        } else {
            false
        }
    }

    /// Whether the entity is alive.
    pub fn is_alive(&self, e: Entity) -> (b: bool)
        ensures
            b == self@.alive(e),
    {
        e.id < self.slots.len() && self.slots[e.id].is_some()
    }

    /// The `Parent` of the entity, if it has one.
    pub fn parent(&self, e: Entity) -> (p: Option<Parent>)
        ensures
            p == (match self@.parent_of(e) {
                Some(x) => Some(Parent(x)),
                None => None,
            }),
    {
        if e.id < self.slots.len() {
            match &self.slots[e.id] {
                Some(r) => match &r.parent {
                    Some(w) => Some(w.value),
                    None => None,
                },
                None => None,
            }
        } else {
            None
        }
    }

    /// Whether the entity has a `Parent` written since the last
    /// synchronization.
    pub fn is_parent_changed(&self, e: Entity) -> (b: bool)
        ensures
            b == self@.parent_changed(e),
    {
        if e.id < self.slots.len() {
            match &self.slots[e.id] {
                Some(r) => match &r.parent {
                    Some(w) => w.changed,
                    None => false,
                },
                None => false,
            }
        } else {
            false
        }
    }

    /// The `PreviousParent` of the entity, if it has one.
    pub fn previous_parent(&self, e: Entity) -> (p: Option<PreviousParent>)
        ensures
            p == self@.previous_parent_of(e),
    {
        if e.id < self.slots.len() {
            match &self.slots[e.id] {
                Some(r) => r.previous_parent,
                None => None,
            }
        } else {
            None
        }
    }

    /// The `Children` of the entity, if it has one.
    pub fn children(&self, e: Entity) -> (c: Option<&Children>)
        ensures
            match c {
                Some(c) => self@.children_of(e) == Some(c@),
                None => self@.children_of(e) is None,
            },
    {
        if e.id < self.slots.len() {
            match &self.slots[e.id] {
                Some(r) => r.children.as_ref(),
                None => None,
            }
        } else {
            None
        }
    }

    /// The local position of the entity, if it has one.
    pub fn position(&self, e: Entity) -> (p: Option<&P>)
        ensures
            match p {
                Some(x) => self@.position_of(e) == Some(*x),
                None => self@.position_of(e) is None,
            },
    {
        if e.id < self.slots.len() {
            match &self.slots[e.id] {
                Some(r) => match &r.position {
                    Some(w) => Some(&w.value),
                    None => None,
                },
                None => None,
            }
        } else {
            None
        }
    }

    /// Whether the position was written since a local update consumed it.
    pub fn is_position_changed(&self, e: Entity) -> (b: bool)
        ensures
            b == self@.position_changed(e),
    {
        if e.id < self.slots.len() {
            match &self.slots[e.id] {
                Some(r) => match &r.position {
                    Some(w) => w.changed,
                    None => false,
                },
                None => false,
            }
        } else {
            false
        }
    }

    /// The local rotation of the entity, if it has one.
    pub fn rotation(&self, e: Entity) -> (p: Option<&R>)
        ensures
            match p {
                Some(x) => self@.rotation_of(e) == Some(*x),
                None => self@.rotation_of(e) is None,
            },
    {
        if e.id < self.slots.len() {
            match &self.slots[e.id] {
                Some(r) => match &r.rotation {
                    Some(w) => Some(&w.value),
                    None => None,
                },
                None => None,
            }
        } else {
            None
        }
    }

    /// Whether the rotation was written since a local update consumed it.
    pub fn is_rotation_changed(&self, e: Entity) -> (b: bool)
        ensures
            b == self@.rotation_changed(e),
    {
        if e.id < self.slots.len() {
            match &self.slots[e.id] {
                Some(r) => match &r.rotation {
                    Some(w) => w.changed,
                    None => false,
                },
                None => false,
            }
        } else {
            false
        }
    }

    /// The transform of the entity relative to its parent, if it has one.
    pub fn parent_transform(&self, e: Entity) -> (t: Option<&M>)
        ensures
            match t {
                Some(x) => self@.parent_transform_of(e) == Some(*x),
                None => self@.parent_transform_of(e) is None,
            },
    {
        if e.id < self.slots.len() {
            match &self.slots[e.id] {
                Some(r) => r.parent_transform.as_ref(),
                None => None,
            }
        } else {
            None
        }
    }

    /// The transform of the entity relative to the world, if it has one.
    pub fn world_transform(&self, e: Entity) -> (t: Option<&M>)
        ensures
            match t {
                Some(x) => self@.world_transform_of(e) == Some(*x),
                None => self@.world_transform_of(e) is None,
            },
    {
        if e.id < self.slots.len() {
            match &self.slots[e.id] {
                Some(r) => r.world_transform.as_ref(),
                None => None,
            }
        } else {
            None
        }
    }

    /// Whether the entity has a position or a rotation.
    pub fn entity_should_have_transform(&self, e: Entity) -> (b: bool)
        ensures
            b == self@.bears_transform(e),
    {
        if e.id < self.slots.len() {
            match &self.slots[e.id] {
                Some(r) => r.position.is_some() || r.rotation.is_some(),
                None => false,
            }
        } else {
            false
        }
    }

    /// Give the entity a `Parent`, or replace the one it has; the change is
    /// flagged for the next synchronization.
    ///
    /// Nothing happens to an entity that is not alive. Returns whether it was.
    pub fn set_parent(&mut self, e: Entity, parent: Entity) -> (was_alive: bool)
        ensures
            was_alive == old(self)@.alive(e),
            final(self)@ == (if old(self)@.alive(e) {
                old(self)@.put(
                    e,
                    EntityView {
                        parent: Some(Written { value: Parent(parent), changed: true }),
                        ..old(self)@.get(e)->0
                    },
                )
            } else {
                old(self)@
            }),
    {
        if e.id < self.slots.len() {
            match &mut self.slots[e.id] {
                Some(r) => {
                    r.parent = Some(Written { value: Parent(parent), changed: true });
                    assert(final(self)@.entities =~= old(self)@.put(
                        e,
                        EntityView {
                            parent: Some(Written { value: Parent(parent), changed: true }),
                            ..old(self)@.get(e)->0
                        },
                    ).entities);
                    true
                },
                None => false,
            }
        } else {
            false
        }
    }

    /// Take the `Parent` away from the entity, which makes it a root.
    ///
    /// The world transform of a root is its local transform, so the position
    /// and the rotation are flagged for the next local update. Nothing
    /// happens to an entity that is not alive. Returns whether it was.
    pub fn remove_parent(&mut self, e: Entity) -> (was_alive: bool)
        ensures
            was_alive == old(self)@.alive(e),
            final(self)@ == (if old(self)@.alive(e) {
                old(self)@.put(e, touched(EntityView { parent: None, ..old(self)@.get(e)->0 }))
            } else {
                old(self)@
            }),
    {
        if e.id < self.slots.len() {
            match &mut self.slots[e.id] {
                Some(r) => {
                    r.parent = None;
                    match &mut r.position {
                        Some(w) => {
                            w.changed = true;
                        },
                        None => {},
                    }
                    match &mut r.rotation {
                        Some(w) => {
                            w.changed = true;
                        },
                        None => {},
                    }
                    assert(final(self)@.entities =~= old(self)@.put(
                        e,
                        touched(EntityView { parent: None, ..old(self)@.get(e)->0 }),
                    ).entities);
                    true
                },
                None => false,
            }
        } else {
            false
        }
    }

    /// Give the entity a local position, or replace the one it has; the
    /// change is flagged for the next local update.
    ///
    /// Nothing happens to an entity that is not alive. Returns whether it was.
    pub fn set_position(&mut self, e: Entity, position: P) -> (was_alive: bool)
        ensures
            was_alive == old(self)@.alive(e),
            final(self)@ == (if old(self)@.alive(e) {
                old(self)@.put(
                    e,
                    EntityView {
                        position: Some(Written { value: position, changed: true }),
                        ..old(self)@.get(e)->0
                    },
                )
            } else {
                old(self)@
            }),
    {
        if e.id < self.slots.len() {
            match &mut self.slots[e.id] {
                Some(r) => {
                    r.position = Some(Written { value: position, changed: true });
                    assert(final(self)@.entities =~= old(self)@.put(
                        e,
                        EntityView {
                            position: Some(Written { value: position, changed: true }),
                            ..old(self)@.get(e)->0
                        },
                    ).entities);
                    true
                },
                None => false,
            }
        } else {
            false
        }
    }

    /// Take the local position away from the entity.
    ///
    /// Nothing happens to an entity that is not alive. Returns whether it was.
    pub fn remove_position(&mut self, e: Entity) -> (was_alive: bool)
        ensures
            was_alive == old(self)@.alive(e),
            final(self)@ == (if old(self)@.alive(e) {
                old(self)@.put(e, EntityView { position: None, ..old(self)@.get(e)->0 })
            } else {
                old(self)@
            }),
    {
        if e.id < self.slots.len() {
            match &mut self.slots[e.id] {
                Some(r) => {
                    r.position = None;
                    assert(final(self)@.entities =~= old(self)@.put(
                        e,
                        EntityView { position: None, ..old(self)@.get(e)->0 },
                    ).entities);
                    true
                },
                None => false,
            }
        } else {
            false
        }
    }

    /// Give the entity a local rotation, or replace the one it has; the
    /// change is flagged for the next local update.
    ///
    /// Nothing happens to an entity that is not alive. Returns whether it was.
    pub fn set_rotation(&mut self, e: Entity, rotation: R) -> (was_alive: bool)
        ensures
            was_alive == old(self)@.alive(e),
            final(self)@ == (if old(self)@.alive(e) {
                old(self)@.put(
                    e,
                    EntityView {
                        rotation: Some(Written { value: rotation, changed: true }),
                        ..old(self)@.get(e)->0
                    },
                )
            } else {
                old(self)@
            }),
    {
        if e.id < self.slots.len() {
            match &mut self.slots[e.id] {
                Some(r) => {
                    r.rotation = Some(Written { value: rotation, changed: true });
                    assert(final(self)@.entities =~= old(self)@.put(
                        e,
                        EntityView {
                            rotation: Some(Written { value: rotation, changed: true }),
                            ..old(self)@.get(e)->0
                        },
                    ).entities);
                    true
                },
                None => false,
            }
        } else {
            false
        }
    }

    /// Take the local rotation away from the entity.
    ///
    /// Nothing happens to an entity that is not alive. Returns whether it was.
    pub fn remove_rotation(&mut self, e: Entity) -> (was_alive: bool)
        ensures
            was_alive == old(self)@.alive(e),
            final(self)@ == (if old(self)@.alive(e) {
                old(self)@.put(e, EntityView { rotation: None, ..old(self)@.get(e)->0 })
            } else {
                old(self)@
            }),
    {
        if e.id < self.slots.len() {
            match &mut self.slots[e.id] {
                Some(r) => {
                    r.rotation = None;
                    assert(final(self)@.entities =~= old(self)@.put(
                        e,
                        EntityView { rotation: None, ..old(self)@.get(e)->0 },
                    ).entities);
                    true
                },
                None => false,
            }
        } else {
            false
        }
    }

    /// Give the entity a `PreviousParent`, or replace the one it has.
    ///
    /// Nothing happens to an entity that is not alive. Returns whether it was.
    pub fn set_previous_parent(&mut self, e: Entity, previous: PreviousParent) -> (was_alive: bool)
        ensures
            was_alive == old(self)@.alive(e),
            final(self)@ == (if old(self)@.alive(e) {
                old(self)@.put(
                    e,
                    EntityView {
                        previous_parent: Some(previous),
                        ..old(self)@.get(e)->0
                    },
                )
            } else {
                old(self)@
            }),
    {
        if e.id < self.slots.len() {
            match &mut self.slots[e.id] {
                Some(r) => {
                    r.previous_parent = Some(previous);
                    assert(final(self)@.entities =~= old(self)@.put(
                        e,
                        EntityView { previous_parent: Some(previous), ..old(self)@.get(e)->0 },
                    ).entities);
                    true
                },
                None => false,
            }
        } else {
            false
        }
    }

    /// Give the entity a `Children`, or replace the one it has.
    ///
    /// Nothing happens to an entity that is not alive. Returns whether it was.
    pub fn set_children(&mut self, e: Entity, children: Children) -> (was_alive: bool)
        ensures
            was_alive == old(self)@.alive(e),
            final(self)@ == (if old(self)@.alive(e) {
                old(self)@.put(e, EntityView { children: Some(children@), ..old(self)@.get(e)->0 })
            } else {
                old(self)@
            }),
    {
        if e.id < self.slots.len() {
            match &mut self.slots[e.id] {
                Some(r) => {
                    r.children = Some(children);
                    assert(final(self)@.entities =~= old(self)@.put(
                        e,
                        EntityView { children: Some(children@), ..old(self)@.get(e)->0 },
                    ).entities);
                    true
                },
                None => false,
            }
        } else {
            false
        }
    }

    /// Give the entity a transform relative to its parent, or replace the
    /// one it has.
    ///
    /// Nothing happens to an entity that is not alive. Returns whether it was.
    pub fn set_parent_transform(&mut self, e: Entity, transform: M) -> (was_alive: bool)
        ensures
            was_alive == old(self)@.alive(e),
            final(self)@ == (if old(self)@.alive(e) {
                old(self)@.put(
                    e,
                    EntityView {
                        parent_transform: Some(transform),
                        ..old(self)@.get(e)->0
                    },
                )
            } else {
                old(self)@
            }),
    {
        if e.id < self.slots.len() {
            match &mut self.slots[e.id] {
                Some(r) => {
                    r.parent_transform = Some(transform);
                    assert(final(self)@.entities =~= old(self)@.put(
                        e,
                        EntityView { parent_transform: Some(transform), ..old(self)@.get(e)->0 },
                    ).entities);
                    true
                },
                None => false,
            }
        } else {
            false
        }
    }

    /// Give the entity a transform relative to the world, or replace the
    /// one it has.
    ///
    /// Nothing happens to an entity that is not alive. Returns whether it was.
    pub fn set_world_transform(&mut self, e: Entity, transform: M) -> (was_alive: bool)
        ensures
            was_alive == old(self)@.alive(e),
            final(self)@ == (if old(self)@.alive(e) {
                old(self)@.put(
                    e,
                    EntityView {
                        world_transform: Some(transform),
                        ..old(self)@.get(e)->0
                    },
                )
            } else {
                old(self)@
            }),
    {
        if e.id < self.slots.len() {
            match &mut self.slots[e.id] {
                Some(r) => {
                    r.world_transform = Some(transform);
                    assert(final(self)@.entities =~= old(self)@.put(
                        e,
                        EntityView { world_transform: Some(transform), ..old(self)@.get(e)->0 },
                    ).entities);
                    true
                },
                None => false,
            }
        } else {
            false
        }
    }

    /// Take the `PreviousParent` away from the entity.
    ///
    /// Nothing happens to an entity that is not alive. Returns whether it was.
    pub fn remove_previous_parent(&mut self, e: Entity) -> (was_alive: bool)
        ensures
            was_alive == old(self)@.alive(e),
            final(self)@ == (if old(self)@.alive(e) {
                old(self)@.put(e, EntityView { previous_parent: None, ..old(self)@.get(e)->0 })
            } else {
                old(self)@
            }),
    {
        if e.id < self.slots.len() {
            match &mut self.slots[e.id] {
                Some(r) => {
                    r.previous_parent = None;
                    assert(final(self)@.entities =~= old(self)@.put(
                        e,
                        EntityView { previous_parent: None, ..old(self)@.get(e)->0 },
                    ).entities);
                    true
                },
                None => false,
            }
        } else {
            false
        }
    }

    /// Take the `Children` away from the entity.
    ///
    /// Nothing happens to an entity that is not alive. Returns whether it was.
    pub fn remove_children(&mut self, e: Entity) -> (was_alive: bool)
        ensures
            was_alive == old(self)@.alive(e),
            final(self)@ == (if old(self)@.alive(e) {
                old(self)@.put(e, EntityView { children: None, ..old(self)@.get(e)->0 })
            } else {
                old(self)@
            }),
    {
        if e.id < self.slots.len() {
            match &mut self.slots[e.id] {
                Some(r) => {
                    r.children = None;
                    assert(final(self)@.entities =~= old(self)@.put(
                        e,
                        EntityView { children: None, ..old(self)@.get(e)->0 },
                    ).entities);
                    true
                },
                None => false,
            }
        } else {
            false
        }
    }

    /// Take the transform relative to the parent away from the entity.
    ///
    /// Nothing happens to an entity that is not alive. Returns whether it was.
    pub fn remove_parent_transform(&mut self, e: Entity) -> (was_alive: bool)
        ensures
            was_alive == old(self)@.alive(e),
            final(self)@ == (if old(self)@.alive(e) {
                old(self)@.put(e, EntityView { parent_transform: None, ..old(self)@.get(e)->0 })
            } else {
                old(self)@
            }),
    {
        if e.id < self.slots.len() {
            match &mut self.slots[e.id] {
                Some(r) => {
                    r.parent_transform = None;
                    assert(final(self)@.entities =~= old(self)@.put(
                        e,
                        EntityView { parent_transform: None, ..old(self)@.get(e)->0 },
                    ).entities);
                    true
                },
                None => false,
            }
        } else {
            false
        }
    }

    /// Take the transform relative to the world away from the entity.
    ///
    /// Nothing happens to an entity that is not alive. Returns whether it was.
    pub fn remove_world_transform(&mut self, e: Entity) -> (was_alive: bool)
        ensures
            was_alive == old(self)@.alive(e),
            final(self)@ == (if old(self)@.alive(e) {
                old(self)@.put(e, EntityView { world_transform: None, ..old(self)@.get(e)->0 })
            } else {
                old(self)@
            }),
    {
        if e.id < self.slots.len() {
            match &mut self.slots[e.id] {
                Some(r) => {
                    r.world_transform = None;
                    assert(final(self)@.entities =~= old(self)@.put(
                        e,
                        EntityView { world_transform: None, ..old(self)@.get(e)->0 },
                    ).entities);
                    true
                },
                None => false,
            }
        } else {
            false
        }
    }

    /// Append a child to the `Children` of an entity that has one. Returns
    /// whether there was a list to append to.
    pub fn add_child(&mut self, parent: Entity, child: Entity) -> (done: bool)
        ensures
            done == (old(self)@.children_of(parent) is Some),
            final(self)@ == (if old(self)@.children_of(parent) is Some {
                old(self)@.put(
                    parent,
                    EntityView {
                        children: Some(old(self)@.children_of(parent)->0.push(child.id)),
                        ..old(self)@.get(parent)->0
                    },
                )
            } else {
                old(self)@
            }),
    {
        if parent.id < self.slots.len() {
            match &mut self.slots[parent.id] {
                Some(r) => match &mut r.children {
                    Some(c) => {
                        c.push(child);
                        assert(final(self)@.entities =~= old(self)@.put(
                            parent,
                            EntityView {
                                children: Some(old(self)@.children_of(parent)->0.push(child.id)),
                                ..old(self)@.get(parent)->0
                            },
                        ).entities);
                        true
                    },
                    None => false,
                },
                None => false,
            }
        } else {
            false
        }
    }

    /// Take a child out of the `Children` of an entity that has one; the
    /// other children keep their order. Returns whether there was a list.
    pub fn remove_child(&mut self, parent: Entity, child: Entity) -> (done: bool)
        ensures
            done == (old(self)@.children_of(parent) is Some),
            final(self)@ == (if old(self)@.children_of(parent) is Some {
                old(self)@.put(
                    parent,
                    EntityView {
                        children: Some(
                            old(self)@.children_of(parent)->0.filter(other_than(child.id)),
                        ),
                        ..old(self)@.get(parent)->0
                    },
                )
            } else {
                old(self)@
            }),
    {
        if parent.id < self.slots.len() {
            match &mut self.slots[parent.id] {
                Some(r) => match &mut r.children {
                    Some(c) => {
                        c.remove(child);
                        assert(final(self)@.entities =~= old(self)@.put(
                            parent,
                            EntityView {
                                children: Some(
                                    old(self)@.children_of(parent)->0.filter(other_than(child.id)),
                                ),
                                ..old(self)@.get(parent)->0
                            },
                        ).entities);
                        true
                    },
                    None => false,
                },
                None => false,
            }
        } else {
            false
        }
    }

    /// Clear the change flag of the entity's `Parent`, if it has one.
    pub fn acknowledge_parent(&mut self, e: Entity)
        ensures
            final(self)@ == (if old(self)@.parent_of(e) is Some {
                old(self)@.put(
                    e,
                    EntityView {
                        parent: Some(
                            Written { value: Parent(old(self)@.parent_of(e)->0), changed: false },
                        ),
                        ..old(self)@.get(e)->0
                    },
                )
            } else {
                old(self)@
            }),
    {
        if e.id < self.slots.len() {
            match &mut self.slots[e.id] {
                Some(r) => match &mut r.parent {
                    Some(w) => {
                        w.changed = false;
                        assert(final(self)@.entities =~= old(self)@.put(
                            e,
                            EntityView {
                                parent: Some(
                                    Written {
                                        value: Parent(old(self)@.parent_of(e)->0),
                                        changed: false,
                                    },
                                ),
                                ..old(self)@.get(e)->0
                            },
                        ).entities);
                    },
                    None => {},
                },
                None => {},
            }
        }
    }

    /// Clear the change flags of the entity's position and rotation.
    pub fn acknowledge_transform_inputs(&mut self, e: Entity)
        ensures
            final(self)@ == (if old(self)@.alive(e) {
                old(self)@.put(e, consumed(old(self)@.get(e)->0))
            } else {
                old(self)@
            }),
    {
        if e.id < self.slots.len() {
            match &mut self.slots[e.id] {
                Some(r) => {
                    match &mut r.position {
                        Some(w) => {
                            w.changed = false;
                        },
                        None => {},
                    }
                    match &mut r.rotation {
                        Some(w) => {
                            w.changed = false;
                        },
                        None => {},
                    }
                    assert(final(self)@.entities =~= old(self)@.put(
                        e,
                        consumed(old(self)@.get(e)->0),
                    ).entities);
                },
                None => {},
            }
        }
    }
}

/// The components of an entity with its position and rotation flagged as
/// changed.
pub open spec fn touched<P, R, M>(v: EntityView<P, R, M>) -> EntityView<P, R, M> {
    EntityView {
        position: match v.position {
            Some(w) => Some(Written { value: w.value, changed: true }),
            None => None,
        },
        rotation: match v.rotation {
            Some(w) => Some(Written { value: w.value, changed: true }),
            None => None,
        },
        ..v
    }
}

/// The components of an entity once the changes of its position and rotation
/// are consumed: the values stay, the flags are clear.
pub open spec fn consumed<P, R, M>(v: EntityView<P, R, M>) -> EntityView<P, R, M> {
    EntityView {
        position: match v.position {
            Some(w) => Some(Written { value: w.value, changed: false }),
            None => None,
        },
        rotation: match v.rotation {
            Some(w) => Some(Written { value: w.value, changed: false }),
            None => None,
        },
        ..v
    }
}

} // verus!
