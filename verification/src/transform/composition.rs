//! What the hierarchical transform update does, stated over the content of
//! the store: which entities it reaches below the roots, and what world
//! transform each of them gets.

use vstd::prelude::*;
use crate::ecs::entity::Entity;
use crate::ecs::view::{EntityView, WorldView};

verus! {

/// The entity `x` is in the child list of `p`.
pub open spec fn lists<P, R, M>(w: WorldView<P, R, M>, p: Entity, x: Entity) -> bool {
    w.children_of(p) is Some && w.children_of(p)->0.contains(x.id)
}

/// Every live entity in a child list has the owner of the list as its
/// `Parent`. A synchronization leaves the lists so.
pub open spec fn lists_are_sound<P, R, M>(w: WorldView<P, R, M>) -> bool {
    forall|p: Entity, x: Entity| #[trigger] lists(w, p, x) && w.alive(x) ==> w.parent_of(x) == Some(p)
}

/// The entity gets a world transform when the walk comes to it, and the
/// walk goes on below it: it has a position or a rotation, and a transform
/// relative to its parent.
pub open spec fn passes_on<P, R, M>(w: WorldView<P, R, M>, e: Entity) -> bool {
    w.bears_transform(e) && w.parent_transform_of(e) is Some
}

/// The walk starts at the entity: it is a root with a child list and a
/// world transform.
pub open spec fn starts<P, R, M>(w: WorldView<P, R, M>, r: Entity) -> bool {
    w.parent_of(r) is None && w.children_of(r) is Some && w.world_transform_of(r) is Some
}

/// The walk that comes to `top` reaches `x` at most `k` levels further
/// down: `x` is `top`, or listed by its parent which the walk reaches, and
/// every entity from `top` down to `x` passes the walk on.
pub open spec fn within_levels<P, R, M>(w: WorldView<P, R, M>, x: Entity, top: Entity, k: nat)
    -> bool
    decreases k,
{
    passes_on(w, x) && (x == top || (k > 0 && w.parent_of(x) is Some && lists(
        w,
        w.parent_of(x)->0,
        x,
    ) && within_levels(w, w.parent_of(x)->0, top, (k - 1) as nat)))
}

/// The walk that comes to `top` reaches `x`.
pub open spec fn within<P, R, M>(w: WorldView<P, R, M>, x: Entity, top: Entity) -> bool {
    exists|k: nat| within_levels(w, x, top, k)
}

/// The update reaches the entity: it is a child of a root at which the walk
/// starts, or below such a child, and every entity on the way down to it
/// passes the walk on.
pub open spec fn reached<P, R, M>(w: WorldView<P, R, M>, x: Entity) -> bool {
    exists|c: Entity|
        #[trigger] within(w, x, c) && w.parent_of(c) is Some && starts(w, w.parent_of(c)->0)
            && lists(w, w.parent_of(c)->0, c)
}

/// What the operations that the hierarchical transform update defers do to
/// an entity, whatever it holds by then: an entity that is reached gets the
/// world transform that the store `s` has for it; nothing happens to any
/// other.
pub open spec fn deferred_by_composition<P, R, M>(w: WorldView<P, R, M>, s: WorldView<P, R, M>)
    -> spec_fn(usize, EntityView<P, R, M>) -> Option<EntityView<P, R, M>> {
    |id: usize, v: EntityView<P, R, M>|
        Some(
            if reached(w, Entity { id }) {
                EntityView { world_transform: s.world_transform_of(Entity { id }), ..v }
            } else {
                v
            },
        )
}

/// The store `s` is the store `w` after a hierarchical transform update with
/// the deferred operations applied: only world transforms differ; an entity
/// that is not reached keeps what it had; an entity that is reached has the
/// product of its parent's world transform in `s` and its own transform
/// relative to the parent, as `compose` makes it.
pub open spec fn composed<P, R, M, F>(w: WorldView<P, R, M>, s: WorldView<P, R, M>, compose: F)
    -> bool where F: Fn(&M, &M) -> M {
    &&& s.len() == w.len()
    &&& forall|e: Entity| #[trigger]
        s.get(e) == (match w.get(e) {
            None => None,
            Some(v) => Some(EntityView { world_transform: s.world_transform_of(e), ..v }),
        })
    &&& forall|e: Entity|
        !reached(w, e) ==> #[trigger] s.world_transform_of(e) == w.world_transform_of(e)
    &&& forall|e: Entity| #[trigger]
        reached(w, e) ==> {
            &&& s.world_transform_of(e) is Some
            &&& s.world_transform_of(w.parent_of(e)->0) is Some
            &&& compose.ensures(
                (&s.world_transform_of(w.parent_of(e)->0)->0, &w.parent_transform_of(e)->0),
                s.world_transform_of(e)->0,
            )
        }
}

/// The walk reaches nothing from an entity that does not pass it on.
pub proof fn lemma_within_top_passes<P, R, M>(w: WorldView<P, R, M>, x: Entity, top: Entity, k: nat)
    requires
        within_levels(w, x, top, k),
    ensures
        passes_on(w, top),
        passes_on(w, x),
    decreases k,
{
    if x != top {
        lemma_within_top_passes(w, w.parent_of(x)->0, top, (k - 1) as nat);
    }
}

/// What the walk reaches below `e` it reaches through a child of `e`.
pub proof fn lemma_within_split<P, R, M>(w: WorldView<P, R, M>, x: Entity, e: Entity, k: nat) -> (c:
    Entity)
    requires
        within_levels(w, x, e, k),
        x != e,
    ensures
        lists(w, e, c),
        w.parent_of(c) == Some(e),
        within(w, x, c),
    decreases k,
{
    let p = w.parent_of(x)->0;
    if p == e {
        assert(within_levels(w, x, x, 0));
        x
    } else {
        let c = lemma_within_split(w, p, e, (k - 1) as nat);
        let j = choose|j: nat| within_levels(w, p, c, j);
        assert(within_levels(w, x, c, j + 1));
        c
    }
}

/// What the walk reaches from a child of `e` it reaches from `e`, if `e`
/// passes the walk on.
pub proof fn lemma_within_extend<P, R, M>(
    w: WorldView<P, R, M>,
    x: Entity,
    c: Entity,
    e: Entity,
    k: nat,
)
    requires
        within_levels(w, x, c, k),
        passes_on(w, e),
        w.parent_of(c) == Some(e),
        lists(w, e, c),
    ensures
        within_levels(w, x, e, k + 1),
    decreases k,
{
    assert(within_levels(w, e, e, 0));
    if x == c {
        assert(within_levels(w, e, e, k));
    } else {
        lemma_within_extend(w, w.parent_of(x)->0, c, e, (k - 1) as nat);
    }
}

} // verus!
