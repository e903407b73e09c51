//! What a synchronization of the hierarchy does, stated over the content of
//! the store: who leaves and joins which child list, who is deleted, and
//! what every surviving entity holds afterwards.

use vstd::prelude::*;
use crate::ecs::entity::Entity;
use crate::ecs::view::{EntityView, WorldView, Written};
use crate::transform::components::previous_parent::PreviousParent;

verus! {

/// The identifiers `0, 1, .., n - 1`.
pub open spec fn entity_ids(n: nat) -> Seq<usize> {
    Seq::new(n, |i: int| i as usize)
}

/// The entity is still remembered as a child of `q` but no longer is one:
/// its `Parent` is gone, or was written and now names another entity.
pub open spec fn leaves<P, R, M>(w: WorldView<P, R, M>, e: Entity, q: Entity) -> bool {
    w.remembered_parent(e) == Some(q) && (w.parent_of(e) is None || (w.parent_changed(e)
        && w.parent_of(e) != Some(q)))
}

/// The entity newly became a child of the live entity `p`: its `Parent` was
/// written, names `p`, and `p` is not what it remembers.
pub open spec fn joins<P, R, M>(w: WorldView<P, R, M>, e: Entity, p: Entity) -> bool {
    w.parent_of(e) == Some(p) && w.parent_changed(e) && w.remembered_parent(e) != Some(p)
        && w.alive(p)
}

/// The entity has a `Parent` that names an entity which is not alive.
pub open spec fn orphaned<P, R, M>(w: WorldView<P, R, M>, e: Entity) -> bool {
    w.parent_of(e) is Some && !w.alive(w.parent_of(e)->0)
}

/// Whether the `PreviousParent` of the entity is out of date.
pub open spec fn refreshes<P, R, M>(w: WorldView<P, R, M>, e: Entity) -> bool {
    if w.parent_of(e) is None {
        w.remembered_parent(e) is Some
    } else {
        w.parent_changed(e) && w.remembered_parent(e) != w.parent_of(e)
    }
}

/// The `PreviousParent` that the entity has after a synchronization: the one
/// that mirrors its `Parent` where the old one is out of date.
pub open spec fn synced_previous_parent<P, R, M>(w: WorldView<P, R, M>, e: Entity) -> Option<
    PreviousParent,
> {
    if refreshes(w, e) {
        Some(PreviousParent(w.parent_of(e)))
    } else {
        w.previous_parent_of(e)
    }
}

/// The test that keeps, in the child list of `q`, what does not leave it.
pub open spec fn stays_in<P, R, M>(w: WorldView<P, R, M>, q: Entity) -> spec_fn(usize) -> bool {
    |x: usize| !leaves(w, Entity { id: x }, q)
}

/// The test that picks the entities that join `p`.
pub open spec fn joins_into<P, R, M>(w: WorldView<P, R, M>, p: Entity) -> spec_fn(usize) -> bool {
    |x: usize| joins(w, Entity { id: x }, p)
}

/// The children that `p` keeps: its old list without those that leave.
pub open spec fn stayers<P, R, M>(w: WorldView<P, R, M>, p: Entity) -> Seq<usize> {
    match w.children_of(p) {
        Some(c) => c.filter(stays_in(w, p)),
        None => Seq::empty(),
    }
}

/// The children that `p` gains, in ascending order of identifier.
pub open spec fn joiners<P, R, M>(w: WorldView<P, R, M>, p: Entity) -> Seq<usize> {
    entity_ids(w.len()).filter(joins_into(w, p))
}

/// The child list that `p` has after a synchronization: those that stay,
/// then those that join. An entity that had no list gets one only if
/// somebody joins it.
pub open spec fn synced_children<P, R, M>(w: WorldView<P, R, M>, p: Entity) -> Option<Seq<usize>> {
    if w.children_of(p) is Some || joiners(w, p).len() > 0 {
        Some(stayers(w, p) + joiners(w, p))
    } else {
        None
    }
}

/// The entity is in the child list that `d` has after a synchronization.
pub open spec fn heir_of<P, R, M>(w: WorldView<P, R, M>, e: Entity, d: Entity) -> bool {
    synced_children(w, d) is Some && synced_children(w, d)->0.contains(e.id)
}

/// The entity is orphaned, or reached from an orphaned entity by going down
/// the synchronized child lists at most `n` times.
pub open spec fn doomed_within<P, R, M>(w: WorldView<P, R, M>, e: Entity, n: nat) -> bool
    decreases n,
{
    orphaned(w, e) || (n > 0 && exists|d: Entity|
        doomed_within(w, d, (n - 1) as nat) && #[trigger] heir_of(w, e, d))
}

/// The entity is deleted by the cascade: it is orphaned, or listed below an
/// entity that is deleted.
pub open spec fn doomed<P, R, M>(w: WorldView<P, R, M>, e: Entity) -> bool {
    exists|n: nat| doomed_within(w, e, n)
}

/// The `Parent` as it was, with its change flag clear.
pub open spec fn acknowledged<T>(p: Option<Written<T>>) -> Option<Written<T>> {
    match p {
        Some(w) => Some(Written { value: w.value, changed: false }),
        None => None,
    }
}

/// What the synchronizer leaves of an entity in the store before the
/// deferred operations are applied: the change flag of the `Parent` is
/// clear, and a child list that the entity had is brought up to date.
pub open spec fn edited_entity<P, R, M>(w: WorldView<P, R, M>, e: Entity) -> Option<
    EntityView<P, R, M>,
> {
    match w.get(e) {
        None => None,
        Some(v) => Some(
            EntityView {
                parent: acknowledged(v.parent),
                children: match v.children {
                    Some(c) => Some(stayers(w, e) + joiners(w, e)),
                    None => None,
                },
                ..v
            },
        ),
    }
}

/// What the operations that the synchronizer defers do to an entity,
/// whatever it holds by then: an entity that the cascade deletes is gone;
/// another gets its `PreviousParent` refreshed where it is stale, and the
/// list of those that join it where it had no list.
pub open spec fn deferred_by_sync<P, R, M>(w: WorldView<P, R, M>) -> spec_fn(
    usize,
    EntityView<P, R, M>,
) -> Option<EntityView<P, R, M>> {
    |id: usize, v: EntityView<P, R, M>|
        {
            let e = Entity { id };
            if doomed(w, e) {
                None
            } else {
                Some(
                    EntityView {
                        previous_parent: if refreshes(w, e) {
                            synced_previous_parent(w, e)
                        } else {
                            v.previous_parent
                        },
                        children: if w.children_of(e) is None && joiners(w, e).len() > 0 {
                            Some(joiners(w, e))
                        } else {
                            v.children
                        },
                        ..v
                    },
                )
            }
        }
}

/// What an entity holds once the hierarchy is synchronized and the deferred
/// operations are applied; `None` if it is deleted or was not alive.
pub open spec fn synced_entity<P, R, M>(w: WorldView<P, R, M>, e: Entity) -> Option<
    EntityView<P, R, M>,
> {
    match w.get(e) {
        None => None,
        Some(v) => if doomed(w, e) {
            None
        } else {
            Some(
                EntityView {
                    parent: acknowledged(v.parent),
                    previous_parent: synced_previous_parent(w, e),
                    children: synced_children(w, e),
                    ..v
                },
            )
        },
    }
}

/// The store once the hierarchy is synchronized and the deferred operations
/// are applied.
pub open spec fn synced<P, R, M>(w: WorldView<P, R, M>) -> WorldView<P, R, M> {
    WorldView {
        entities: Seq::new(w.len(), |i: int| synced_entity(w, Entity { id: i as usize })),
    }
}

/// The bookkeeping of the hierarchy is consistent: the store holds no more
/// entities than a machine can count, the child lists and the remembered
/// parents name only entities that the store has handed out, the child lists and the
/// remembered parents, which only the synchronizer writes, agree with each
/// other, and a `Parent` that was not written since the last synchronization
/// is the remembered one.
///
/// This holds of an empty store, and it survives every write, removal and
/// deletion that a user makes as well as a synchronization.
pub open spec fn consistent<P, R, M>(w: WorldView<P, R, M>) -> bool {
    &&& w.len() <= usize::MAX
    &&& forall|p: Entity, x: Entity|
        w.children_of(p) is Some && #[trigger] w.children_of(p)->0.contains(x.id) ==> x.id
            < w.len()
    &&& forall|x: Entity|
        (#[trigger] w.remembered_parent(x)) is Some ==> w.remembered_parent(x)->0.id < w.len()
    &&& forall|p: Entity, x: Entity|
        #![trigger w.remembered_parent(x), w.children_of(p)]
        w.children_of(p) is Some && w.children_of(p)->0.contains(x.id) && w.alive(x)
            ==> w.remembered_parent(x) == Some(p)
    &&& forall|p: Entity, x: Entity|
        #![trigger w.remembered_parent(x), w.children_of(p)]
        w.remembered_parent(x) == Some(p) && w.alive(p) ==> w.children_of(p) is Some
            && w.children_of(p)->0.contains(x.id)
    &&& forall|x: Entity|
        w.parent_of(x) is Some && !#[trigger] w.parent_changed(x) ==> w.remembered_parent(x)
            == w.parent_of(x)
}

/// The hierarchy is synchronized: the bookkeeping is consistent, every
/// entity remembers exactly the parent that it has, no change is pending,
/// and every parent is alive.
pub open spec fn in_sync<P, R, M>(w: WorldView<P, R, M>) -> bool {
    &&& consistent(w)
    &&& forall|x: Entity| #[trigger] w.remembered_parent(x) == w.parent_of(x)
    &&& forall|x: Entity| !#[trigger] w.parent_changed(x)
    &&& forall|x: Entity| #[trigger] w.parent_of(x) is Some ==> w.alive(w.parent_of(x)->0)
}

/// The entity that is `k` steps up the parent pointers from `e`, if the
/// chain of pointers is that long.
pub open spec fn ancestor<P, R, M>(w: WorldView<P, R, M>, e: Entity, k: nat) -> Option<Entity>
    decreases k,
{
    if k == 0 {
        Some(e)
    } else {
        match ancestor(w, e, (k - 1) as nat) {
            Some(a) => w.parent_of(a),
            None => None,
        }
    }
}

/// The parent pointers lead from the entity up to one that is not alive.
pub open spec fn has_dead_ancestor<P, R, M>(w: WorldView<P, R, M>, e: Entity) -> bool {
    exists|k: nat| (#[trigger] ancestor(w, e, k)) is Some && !w.alive(ancestor(w, e, k)->0)
}

} // verus!
