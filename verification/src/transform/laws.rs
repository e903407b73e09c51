//! What holds of the stages on every store: of a synchronization that its
//! child lists match the parent pointers, that it deletes exactly what hangs
//! below a deleted entity, and that a second one changes nothing; of the
//! transform updates that they compose along the hierarchy and pass over
//! what did not change; and that the writes of a user and a whole cycle
//! keep the bookkeeping consistent.

use vstd::prelude::*;
use crate::ecs::entity::Entity;
use crate::ecs::view::{EntityView, WorldView};
use crate::transform::composition::{
    composed, lists, lists_are_sound, passes_on, reached, starts, within, within_levels,
};
use crate::transform::local::{inputs_changed, locally_updated, target_of, TransformKind};
use crate::transform::systems::pipeline::{cycle_stages, cycled, updated_locally};
use crate::transform::hierarchy::{
    ancestor, consistent, doomed, doomed_within, edited_entity, entity_ids, has_dead_ancestor,
    heir_of, in_sync, joiners, joins, joins_into, leaves, orphaned, refreshes, stayers, stays_in,
    synced, synced_children, synced_entity, synced_previous_parent,
};
use crate::transform::seq_facts::{lemma_filter_all, lemma_filter_members};

verus! {

/// Who is in a synchronized child list: those of the old list that do not
/// leave, and those that join.
pub proof fn lemma_heirs<P, R, M>(w: WorldView<P, R, M>, x: Entity, p: Entity)
    ensures
        heir_of(w, x, p) <==> ((w.children_of(p) is Some && w.children_of(p)->0.contains(x.id)
            && !leaves(w, x, p)) || joins(w, x, p)),
{
    lemma_filter_members(entity_ids(w.len()), joins_into(w, p));
    let j = joiners(w, p);
    assert(entity_ids(w.len()).contains(x.id) <==> x.id < w.len()) by {
        if x.id < w.len() {
            assert(entity_ids(w.len())[x.id as int] == x.id);
        }
    }
    if let Some(c) = w.children_of(p) {
        lemma_filter_members(c, stays_in(w, p));
    }
    let s = stayers(w, p);
    assert((s + j).contains(x.id) <==> (s.contains(x.id) || j.contains(x.id))) by {
        if s.contains(x.id) {
            let i = choose|i: int| 0 <= i < s.len() && s[i] == x.id;
            assert((s + j)[i] == x.id);
        }
        if j.contains(x.id) {
            let i = choose|i: int| 0 <= i < j.len() && j[i] == x.id;
            assert((s + j)[s.len() + i] == x.id);
        }
        if (s + j).contains(x.id) {
            let i = choose|i: int| 0 <= i < (s + j).len() && (s + j)[i] == x.id;
            if i < s.len() {
                assert(s[i] == x.id);
            } else {
                assert(j[i - s.len()] == x.id);
            }
        }
    }
    if j.contains(x.id) {
        assert(j.len() > 0);
    }
    assert(Entity { id: x.id } == x);
}

/// With consistent bookkeeping, the synchronized child list of a live
/// entity holds, among the live entities, exactly those whose `Parent` it is.
pub proof fn lemma_heirs_are_children<P, R, M>(w: WorldView<P, R, M>, x: Entity, p: Entity)
    requires
        consistent(w),
        w.alive(x),
    ensures
        heir_of(w, x, p) <==> (w.parent_of(x) == Some(p) && w.alive(p)),
{
    lemma_heirs(w, x, p);
    if w.parent_of(x) == Some(p) && w.alive(p) {
        if !joins(w, x, p) {
            assert(w.remembered_parent(x) == Some(p));
        }
    }
}

/// What the synchronized store holds of an entity.
pub proof fn lemma_synced_get<P, R, M>(w: WorldView<P, R, M>, e: Entity)
    ensures
        synced(w).get(e) == synced_entity(w, e),
        synced(w).alive(e) <==> w.alive(e) && !doomed(w, e),
        synced(w).alive(e) ==> {
            &&& synced(w).parent_of(e) == w.parent_of(e)
            &&& !synced(w).parent_changed(e)
            &&& synced(w).previous_parent_of(e) == synced_previous_parent(w, e)
            &&& synced(w).children_of(e) == synced_children(w, e)
        },
{
    if e.id < w.len() {
        assert(Entity { id: e.id as int as usize } == e);
        assert(synced(w).entities[e.id as int] == synced_entity(w, e));
    }
}

/// The entity that the synchronized store remembers as the parent of a
/// surviving entity is the parent that the entity has.
proof fn lemma_synced_remembers<P, R, M>(w: WorldView<P, R, M>, x: Entity)
    requires
        consistent(w),
        synced(w).alive(x),
    ensures
        synced(w).remembered_parent(x) == w.parent_of(x),
{
    lemma_synced_get(w, x);
}

/// A surviving entity has a surviving parent, or none.
proof fn lemma_synced_parent_survives<P, R, M>(w: WorldView<P, R, M>, x: Entity)
    requires
        consistent(w),
        synced(w).alive(x),
        w.parent_of(x) is Some,
    ensures
        synced(w).alive(w.parent_of(x)->0),
{
    let p = w.parent_of(x)->0;
    lemma_synced_get(w, x);
    lemma_synced_get(w, p);
    if !w.alive(p) {
        assert(doomed_within(w, x, 0));
    } else if doomed(w, p) {
        lemma_heirs_are_children(w, x, p);
        let n = choose|n: nat| doomed_within(w, p, n);
        assert(doomed_within(w, x, n + 1));
    }
}

/// A synchronization of a store with consistent bookkeeping leaves the
/// hierarchy synchronized.
pub proof fn lemma_synced_is_in_sync<P, R, M>(w: WorldView<P, R, M>)
    requires
        consistent(w),
    ensures
        in_sync(synced(w)),
{
    let s = synced(w);
    assert forall|x: Entity| #[trigger] s.remembered_parent(x) == s.parent_of(x) by {
        lemma_synced_get(w, x);
        if s.alive(x) {
            lemma_synced_remembers(w, x);
        }
    }
    assert forall|x: Entity| !#[trigger] s.parent_changed(x) by {
        lemma_synced_get(w, x);
    }
    assert forall|x: Entity| #[trigger] s.parent_of(x) is Some implies s.alive(
        s.parent_of(x)->0,
    ) by {
        lemma_synced_get(w, x);
        lemma_synced_parent_survives(w, x);
    }
    assert forall|p: Entity, x: Entity|
        s.children_of(p) is Some && #[trigger] s.children_of(p)->0.contains(x.id) implies x.id
            < s.len() by {
        lemma_synced_get(w, p);
        lemma_heirs(w, x, p);
    }
    assert forall|x: Entity| (#[trigger] s.remembered_parent(x)) is Some implies s.remembered_parent(
        x,
    )->0.id < s.len() by {
        assert(s.remembered_parent(x) == s.parent_of(x));
        assert(s.parent_of(x) is Some ==> s.alive(s.parent_of(x)->0));
    }
    assert forall|p: Entity, x: Entity|
        #![trigger s.remembered_parent(x), s.children_of(p)]
        s.children_of(p) is Some && s.children_of(p)->0.contains(x.id) && s.alive(x)
            implies s.remembered_parent(x) == Some(p) by {
        lemma_synced_get(w, x);
        lemma_synced_get(w, p);
        lemma_heirs_are_children(w, x, p);
        lemma_synced_remembers(w, x);
    }
    assert forall|p: Entity, x: Entity|
        #![trigger s.remembered_parent(x), s.children_of(p)]
        s.remembered_parent(x) == Some(p) && s.alive(p) implies s.children_of(p) is Some
            && s.children_of(p)->0.contains(x.id) by {
        lemma_synced_get(w, x);
        lemma_synced_get(w, p);
        lemma_synced_remembers(w, x);
        lemma_heirs_are_children(w, x, p);
    }
}

/// **Adjacency.** After a synchronization of a store with consistent
/// bookkeeping, every entity whose `Parent` is the live entity `p` is in
/// the child list of `p`, and every live entity in the child list of `p`
/// has `p` as its `Parent`.
pub proof fn lemma_adjacency<P, R, M>(w: WorldView<P, R, M>, p: Entity, x: Entity)
    requires
        consistent(w),
    ensures
        synced(w).parent_of(x) == Some(p) && synced(w).alive(p) ==> synced(w).children_of(p)
            is Some && synced(w).children_of(p)->0.contains(x.id),
        synced(w).children_of(p) is Some && synced(w).children_of(p)->0.contains(x.id) && synced(
            w,
        ).alive(x) ==> synced(w).parent_of(x) == Some(p),
{
    lemma_synced_is_in_sync(w);
    let s = synced(w);
    assert(s.remembered_parent(x) == s.parent_of(x));
}

/// An entity that is listed in a synchronized child list and was not
/// deleted before the synchronization is not deleted by it either.
pub proof fn lemma_listed_survive<P, R, M>(w: WorldView<P, R, M>, p: Entity, x: Entity)
    requires
        consistent(w),
        synced(w).children_of(p) is Some,
        synced(w).children_of(p)->0.contains(x.id),
        w.alive(x),
    ensures
        synced(w).alive(x),
{
    lemma_synced_get(w, p);
    lemma_synced_get(w, x);
    lemma_heirs_are_children(w, x, p);
    if doomed(w, x) {
        let n = choose|n: nat| doomed_within(w, x, n);
        lemma_doomed_has_doomed_parent(w, x, n);
        let n2 = choose|n2: nat| doomed_within(w, p, n2);
        assert(doomed(w, p));
    }
}

/// An entity that the cascade deletes has a `Parent` that is not alive or is
/// deleted too.
proof fn lemma_doomed_has_doomed_parent<P, R, M>(w: WorldView<P, R, M>, x: Entity, n: nat)
    requires
        consistent(w),
        w.alive(x),
        doomed_within(w, x, n),
    ensures
        w.parent_of(x) is Some,
        !w.alive(w.parent_of(x)->0) || doomed(w, w.parent_of(x)->0),
{
    if !orphaned(w, x) {
        let d = choose|d: Entity| doomed_within(w, d, (n - 1) as nat) && #[trigger] heir_of(w, x, d);
        lemma_heirs_are_children(w, x, d);
        assert(doomed(w, d));
    }
}

/// **Adjacency, in full.** Where no child list held a deleted entity
/// before, the child list of `p` after the synchronization holds no entity
/// whose `Parent` is not `p`.
pub proof fn lemma_adjacency_exact<P, R, M>(w: WorldView<P, R, M>, p: Entity, x: Entity)
    requires
        consistent(w),
        forall|q: Entity, y: Entity|
            w.children_of(q) is Some && #[trigger] w.children_of(q)->0.contains(y.id) ==> w.alive(
                y,
            ),
        synced(w).children_of(p) is Some,
        synced(w).children_of(p)->0.contains(x.id),
    ensures
        synced(w).parent_of(x) == Some(p),
{
    lemma_synced_get(w, p);
    lemma_heirs(w, x, p);
    assert(w.alive(x));
    lemma_listed_survive(w, p, x);
    lemma_adjacency(w, p, x);
}

/// Going up from an entity is going up from its parent, one step less.
proof fn lemma_ancestor_shift<P, R, M>(w: WorldView<P, R, M>, e: Entity, k: nat)
    requires
        w.parent_of(e) is Some,
    ensures
        ancestor(w, e, k + 1) == ancestor(w, w.parent_of(e)->0, k),
    decreases k,
{
    if k > 0 {
        lemma_ancestor_shift(w, e, (k - 1) as nat);
    } else {
        assert(ancestor(w, e, 0) == Some(e));
        assert(ancestor(w, e, 1) == w.parent_of(e)) by {
            reveal_with_fuel(ancestor, 2);
        }
    }
}

/// An entity that the cascade deletes has an ancestor that is not alive.
proof fn lemma_doomed_has_dead_ancestor<P, R, M>(w: WorldView<P, R, M>, e: Entity, n: nat)
    requires
        consistent(w),
        w.alive(e),
        doomed_within(w, e, n),
    ensures
        has_dead_ancestor(w, e),
    decreases n,
{
    if orphaned(w, e) {
        lemma_ancestor_shift(w, e, 0);
        assert(ancestor(w, e, 1) == Some(w.parent_of(e)->0));
    } else {
        let d = choose|d: Entity| doomed_within(w, d, (n - 1) as nat) && #[trigger] heir_of(w, e, d);
        lemma_heirs_are_children(w, e, d);
        lemma_doomed_has_dead_ancestor(w, d, (n - 1) as nat);
        let k = choose|k: nat| (#[trigger] ancestor(w, d, k)) is Some && !w.alive(
            ancestor(w, d, k)->0,
        );
        lemma_ancestor_shift(w, e, k);
        assert(ancestor(w, e, k + 1) is Some && !w.alive(ancestor(w, e, k + 1)->0));
    }
}

/// A live entity with an ancestor that is not alive is deleted by the
/// cascade.
proof fn lemma_dead_ancestor_dooms<P, R, M>(w: WorldView<P, R, M>, e: Entity, k: nat)
    requires
        consistent(w),
        w.alive(e),
        ancestor(w, e, k) is Some,
        !w.alive(ancestor(w, e, k)->0),
    ensures
        doomed(w, e),
    decreases k,
{
    if k == 0 {
    } else {
        if w.parent_of(e) is None {
            lemma_chain_ends(w, e, k);
        } else {
            let p = w.parent_of(e)->0;
            lemma_ancestor_shift(w, e, (k - 1) as nat);
            if !w.alive(p) {
                assert(doomed_within(w, e, 0));
            } else {
                lemma_dead_ancestor_dooms(w, p, (k - 1) as nat);
                lemma_heirs_are_children(w, e, p);
                let n = choose|n: nat| doomed_within(w, p, n);
                assert(doomed_within(w, e, n + 1));
            }
        }
    }
}

/// An entity without a `Parent` has no ancestor.
proof fn lemma_chain_ends<P, R, M>(w: WorldView<P, R, M>, e: Entity, k: nat)
    requires
        w.parent_of(e) is None,
        k > 0,
    ensures
        ancestor(w, e, k) is None,
    decreases k,
{
    if k > 1 {
        lemma_chain_ends(w, e, (k - 1) as nat);
    } else {
        reveal_with_fuel(ancestor, 2);
    }
}

/// **Cascade.** A synchronization of a store with consistent bookkeeping
/// deletes exactly the live entities from which the parent pointers lead up
/// to an entity that is not alive: with a deleted entity, everything below
/// it goes, and nothing else does.
pub proof fn lemma_cascade<P, R, M>(w: WorldView<P, R, M>, e: Entity)
    requires
        consistent(w),
    ensures
        synced(w).alive(e) <==> w.alive(e) && !has_dead_ancestor(w, e),
{
    lemma_synced_get(w, e);
    if w.alive(e) {
        if doomed(w, e) {
            let n = choose|n: nat| doomed_within(w, e, n);
            lemma_doomed_has_dead_ancestor(w, e, n);
        }
        if has_dead_ancestor(w, e) {
            let k = choose|k: nat| (#[trigger] ancestor(w, e, k)) is Some && !w.alive(
                ancestor(w, e, k)->0,
            );
            lemma_dead_ancestor_dooms(w, e, k);
        }
    }
}

/// In a synchronized hierarchy the cascade finds nothing to delete.
proof fn lemma_nothing_doomed<P, R, M>(w: WorldView<P, R, M>, e: Entity, n: nat)
    requires
        in_sync(w),
    ensures
        !doomed_within(w, e, n),
    decreases n,
{
    assert(w.parent_of(e) is Some ==> w.alive(w.parent_of(e)->0));
    if n > 0 {
        assert forall|d: Entity| !(doomed_within(w, d, (n - 1) as nat) && #[trigger] heir_of(
            w,
            e,
            d,
        )) by {
            lemma_nothing_doomed(w, d, (n - 1) as nat);
        }
    }
}

/// **Idempotence.** A synchronization of a synchronized hierarchy changes
/// nothing.
pub proof fn lemma_sync_of_synced<P, R, M>(w: WorldView<P, R, M>)
    requires
        in_sync(w),
    ensures
        synced(w) == w,
{
    assert forall|i: int| 0 <= i < w.len() implies #[trigger] synced(w).entities[i]
        == w.entities[i] by {
        let e = Entity { id: i as usize };
        assert(synced(w).entities[i] == synced_entity(w, e));
        if let Some(v) = w.entities[i] {
            assert(w.get(e) == Some(v));
            assert(!doomed(w, e)) by {
                if doomed(w, e) {
                    let n = choose|n: nat| doomed_within(w, e, n);
                    lemma_nothing_doomed(w, e, n);
                }
            }
            assert(!w.parent_changed(e));
            assert(w.remembered_parent(e) == w.parent_of(e));
            lemma_filter_members(entity_ids(w.len()), joins_into(w, e));
            let j = joiners(w, e);
            if j.len() > 0 {
                assert(j.contains(j[0]));
                assert(joins(w, Entity { id: j[0] }, e));
                assert(!w.parent_changed(Entity { id: j[0] }));
            }
            assert(j =~= Seq::<usize>::empty());
            if let Some(c) = v.children {
                assert forall|k: int| 0 <= k < c.len() implies stays_in(w, e)(#[trigger] c[k]) by {
                    let x = Entity { id: c[k] };
                    assert(w.remembered_parent(x) == w.parent_of(x));
                    assert(!w.parent_changed(x));
                }
                lemma_filter_all(c, stays_in(w, e));
                assert(c + j =~= c);
            }
            assert(synced_entity(w, e)->0 =~= v);
        }
    }
    assert(synced(w).entities =~= w.entities);
}

/// **Idempotence of two runs.** Running the synchronization twice in a row
/// on a store with consistent bookkeeping gives what running it once gives.
pub proof fn lemma_sync_idempotent<P, R, M>(w: WorldView<P, R, M>)
    requires
        consistent(w),
    ensures
        synced(synced(w)) == synced(w),
{
    lemma_synced_is_in_sync(w);
    lemma_sync_of_synced(synced(w));
}

/// The bookkeeping of a store without entities is consistent.
pub proof fn lemma_consistent_at_start<P, R, M>(w: WorldView<P, R, M>)
    requires
        w.len() == 0,
    ensures
        consistent(w),
        in_sync(w),
{
}

/// Creating an entity keeps the bookkeeping consistent.
pub proof fn lemma_consistent_after_insert<P, R, M>(w: WorldView<P, R, M>)
    requires
        consistent(w),
        w.len() < usize::MAX,
    ensures
        consistent(WorldView { entities: w.entities.push(Some(EntityView::bare())) }),
{
    let after = WorldView { entities: w.entities.push(Some(EntityView::<P, R, M>::bare())) };
    assert forall|x: Entity| x.id < w.len() implies #[trigger] after.get(x) == w.get(x) by {}
    assert forall|x: Entity| x.id >= w.len() implies (#[trigger] after.get(x)) is None || after.get(
        x,
    ) == Some(EntityView::<P, R, M>::bare()) by {}
    assert forall|x: Entity| x.id >= w.len() implies (#[trigger] w.get(x)) is None by {}
    assert forall|p: Entity, x: Entity|
        after.children_of(p) is Some && #[trigger] after.children_of(p)->0.contains(
            x.id,
        ) implies x.id < after.len() by {
        assert(w.children_of(p) is Some && w.children_of(p)->0.contains(x.id));
    }
    assert forall|x: Entity| (#[trigger] after.remembered_parent(x)) is Some implies after.remembered_parent(
        x,
    )->0.id < after.len() by {
        assert(w.remembered_parent(x) is Some);
    }
    assert forall|p: Entity, x: Entity|
        #![trigger after.remembered_parent(x), after.children_of(p)]
        after.children_of(p) is Some && after.children_of(p)->0.contains(x.id) && after.alive(x)
            implies after.remembered_parent(x) == Some(p) by {
        assert(w.children_of(p) is Some && w.children_of(p)->0.contains(x.id));
        assert(x.id < w.len());
        assert(w.remembered_parent(x) == Some(p));
    }
    assert forall|p: Entity, x: Entity|
        #![trigger after.remembered_parent(x), after.children_of(p)]
        after.remembered_parent(x) == Some(p) && after.alive(p) implies after.children_of(p)
            is Some && after.children_of(p)->0.contains(x.id) by {
        assert(w.remembered_parent(x) == Some(p));
        assert(w.remembered_parent(x)->0.id < w.len());
        assert(w.children_of(p) is Some && w.children_of(p)->0.contains(x.id));
    }
    assert forall|x: Entity|
        after.parent_of(x) is Some && !#[trigger] after.parent_changed(x)
            implies after.remembered_parent(x) == after.parent_of(x) by {
        assert(w.parent_of(x) is Some && !w.parent_changed(x));
    }
}

/// Deleting an entity keeps the bookkeeping consistent.
pub proof fn lemma_consistent_after_delete<P, R, M>(w: WorldView<P, R, M>, e: Entity)
    requires
        consistent(w),
    ensures
        consistent(w.without(e)),
{
    let after = w.without(e);
    assert forall|x: Entity| x != e implies #[trigger] after.get(x) == w.get(x) by {}
    assert(after.get(e) is None);
    assert forall|p: Entity, x: Entity|
        after.children_of(p) is Some && #[trigger] after.children_of(p)->0.contains(
            x.id,
        ) implies x.id < after.len() by {
        assert(w.children_of(p) is Some && w.children_of(p)->0.contains(x.id));
    }
    assert forall|x: Entity| (#[trigger] after.remembered_parent(x)) is Some implies after.remembered_parent(
        x,
    )->0.id < after.len() by {
        assert(w.remembered_parent(x) is Some);
    }
    assert forall|p: Entity, x: Entity|
        #![trigger after.remembered_parent(x), after.children_of(p)]
        after.children_of(p) is Some && after.children_of(p)->0.contains(x.id) && after.alive(x)
            implies after.remembered_parent(x) == Some(p) by {
        assert(w.children_of(p) is Some && w.children_of(p)->0.contains(x.id));
        assert(w.remembered_parent(x) == Some(p));
    }
    assert forall|p: Entity, x: Entity|
        #![trigger after.remembered_parent(x), after.children_of(p)]
        after.remembered_parent(x) == Some(p) && after.alive(p) implies after.children_of(p)
            is Some && after.children_of(p)->0.contains(x.id) by {
        assert(w.remembered_parent(x) == Some(p));
        assert(w.children_of(p) is Some && w.children_of(p)->0.contains(x.id));
    }
    assert forall|x: Entity|
        after.parent_of(x) is Some && !#[trigger] after.parent_changed(x)
            implies after.remembered_parent(x) == after.parent_of(x) by {
        assert(w.parent_of(x) is Some && !w.parent_changed(x));
    }
}

/// Writing or removing a `Parent` keeps the bookkeeping consistent, provided
/// that a written `Parent` carries its change flag.
pub proof fn lemma_consistent_after_reparenting<P, R, M>(
    w: WorldView<P, R, M>,
    e: Entity,
    v: EntityView<P, R, M>,
)
    requires
        consistent(w),
        w.alive(e),
        v.parent is Some ==> v.parent->0.changed,
        v.previous_parent == w.get(e)->0.previous_parent,
        v.children == w.get(e)->0.children,
    ensures
        consistent(w.put(e, v)),
{
    let after = w.put(e, v);
    assert forall|x: Entity| x != e implies #[trigger] after.get(x) == w.get(x) by {}
    assert(after.get(e) == Some(v));
    assert forall|x: Entity|
        #[trigger] after.remembered_parent(x) == w.remembered_parent(x) && after.children_of(x)
            == w.children_of(x) && after.alive(x) == w.alive(x) by {
        assert(x != e ==> after.get(x) == w.get(x));
    }
    assert forall|p: Entity, x: Entity|
        after.children_of(p) is Some && #[trigger] after.children_of(p)->0.contains(
            x.id,
        ) implies x.id < after.len() by {
        assert(w.children_of(p) is Some && w.children_of(p)->0.contains(x.id));
    }
    assert forall|x: Entity| (#[trigger] after.remembered_parent(x)) is Some implies after.remembered_parent(
        x,
    )->0.id < after.len() by {
        assert(w.remembered_parent(x) is Some);
    }
    assert forall|p: Entity, x: Entity|
        #![trigger after.remembered_parent(x), after.children_of(p)]
        after.children_of(p) is Some && after.children_of(p)->0.contains(x.id) && after.alive(x)
            implies after.remembered_parent(x) == Some(p) by {
        assert(w.children_of(p) is Some && w.children_of(p)->0.contains(x.id));
        assert(w.remembered_parent(x) == Some(p));
    }
    assert forall|p: Entity, x: Entity|
        #![trigger after.remembered_parent(x), after.children_of(p)]
        after.remembered_parent(x) == Some(p) && after.alive(p) implies after.children_of(p)
            is Some && after.children_of(p)->0.contains(x.id) by {
        assert(w.remembered_parent(x) == Some(p));
        assert(w.children_of(p) is Some && w.children_of(p)->0.contains(x.id));
    }
    assert forall|x: Entity|
        after.parent_of(x) is Some && !#[trigger] after.parent_changed(x)
            implies after.remembered_parent(x) == after.parent_of(x) by {
        assert(x != e);
        assert(after.get(x) == w.get(x));
        assert(w.parent_of(x) is Some && !w.parent_changed(x));
    }
}

/// Writing a component other than `Parent`, `PreviousParent` and `Children`
/// keeps the bookkeeping consistent.
pub proof fn lemma_consistent_after_other_write<P, R, M>(
    w: WorldView<P, R, M>,
    e: Entity,
    v: EntityView<P, R, M>,
)
    requires
        consistent(w),
        w.alive(e),
        v.parent == w.get(e)->0.parent,
        v.previous_parent == w.get(e)->0.previous_parent,
        v.children == w.get(e)->0.children,
    ensures
        consistent(w.put(e, v)),
{
    let after = w.put(e, v);
    assert forall|x: Entity| x != e implies #[trigger] after.get(x) == w.get(x) by {}
    assert(after.get(e) == Some(v));
    assert forall|x: Entity|
        #[trigger] after.remembered_parent(x) == w.remembered_parent(x) && after.children_of(x)
            == w.children_of(x) && after.alive(x) == w.alive(x) && after.parent_of(x)
            == w.parent_of(x) && after.parent_changed(x) == w.parent_changed(x) by {
        assert(x != e ==> after.get(x) == w.get(x));
    }
    assert forall|p: Entity, x: Entity|
        after.children_of(p) is Some && #[trigger] after.children_of(p)->0.contains(
            x.id,
        ) implies x.id < after.len() by {
        assert(w.children_of(p) is Some && w.children_of(p)->0.contains(x.id));
    }
    assert forall|x: Entity| (#[trigger] after.remembered_parent(x)) is Some implies after.remembered_parent(
        x,
    )->0.id < after.len() by {
        assert(w.remembered_parent(x) is Some);
    }
    assert forall|p: Entity, x: Entity|
        #![trigger after.remembered_parent(x), after.children_of(p)]
        after.children_of(p) is Some && after.children_of(p)->0.contains(x.id) && after.alive(x)
            implies after.remembered_parent(x) == Some(p) by {
        assert(w.children_of(p) is Some && w.children_of(p)->0.contains(x.id));
        assert(w.remembered_parent(x) == Some(p));
    }
    assert forall|p: Entity, x: Entity|
        #![trigger after.remembered_parent(x), after.children_of(p)]
        after.remembered_parent(x) == Some(p) && after.alive(p) implies after.children_of(p)
            is Some && after.children_of(p)->0.contains(x.id) by {
        assert(w.remembered_parent(x) == Some(p));
        assert(w.children_of(p) is Some && w.children_of(p)->0.contains(x.id));
    }
    assert forall|x: Entity|
        after.parent_of(x) is Some && !#[trigger] after.parent_changed(x)
            implies after.remembered_parent(x) == after.parent_of(x) by {
        assert(w.parent_of(x) is Some && !w.parent_changed(x));
    }
}

/// In a synchronized hierarchy the child lists are sound, which is what the
/// hierarchical transform update asks for.
pub proof fn lemma_in_sync_lists_are_sound<P, R, M>(w: WorldView<P, R, M>)
    requires
        in_sync(w),
    ensures
        lists_are_sound(w),
{
    assert forall|p: Entity, x: Entity| #[trigger] lists(w, p, x) && w.alive(x) implies w.parent_of(
        x,
    ) == Some(p) by {
        assert(w.remembered_parent(x) == Some(p));
        assert(w.remembered_parent(x) == w.parent_of(x));
    }
}

/// **Composition.** Below a root `r` at which the walk starts, a child `c1`
/// gets the product of the world transform of `r` and its own transform
/// relative to the parent, and a child `c2` of `c1` the product of that
/// product and its own transform relative to the parent; the world
/// transform of `r` stays.
pub proof fn lemma_composition_chain<P, R, M, F: Fn(&M, &M) -> M>(
    w: WorldView<P, R, M>,
    s: WorldView<P, R, M>,
    compose: F,
    r: Entity,
    c1: Entity,
    c2: Entity,
)
    requires
        composed(w, s, compose),
        starts(w, r),
        lists(w, r, c1),
        w.parent_of(c1) == Some(r),
        passes_on(w, c1),
        lists(w, c1, c2),
        w.parent_of(c2) == Some(c1),
        passes_on(w, c2),
    ensures
        s.world_transform_of(r) == w.world_transform_of(r),
        s.world_transform_of(c1) is Some,
        s.world_transform_of(c2) is Some,
        compose.ensures(
            (&w.world_transform_of(r)->0, &w.parent_transform_of(c1)->0),
            s.world_transform_of(c1)->0,
        ),
        compose.ensures(
            (&s.world_transform_of(c1)->0, &w.parent_transform_of(c2)->0),
            s.world_transform_of(c2)->0,
        ),
{
    assert(within_levels(w, c1, c1, 0));
    assert(within(w, c1, c1));
    assert(within_levels(w, c2, c1, 1));
    assert(within(w, c2, c1));
    assert(reached(w, c1));
    assert(reached(w, c2));
    assert(!reached(w, r)) by {
        if reached(w, r) {
            let c = choose|c: Entity|
                #[trigger] within(w, r, c) && w.parent_of(c) is Some && starts(
                    w,
                    w.parent_of(c)->0,
                ) && lists(w, w.parent_of(c)->0, c);
            let k = choose|k: nat| within_levels(w, r, c, k);
        }
    }
}

/// **Change-driven skip.** An entity whose position and rotation were not
/// written since the last local update, and which has the transform that
/// the update writes, is after the update exactly what it was before: it
/// keeps the transform unchanged.
pub proof fn lemma_unchanged_is_skipped<P, R, M, FP, FR, FB>(
    before: EntityView<P, R, M>,
    after: Option<EntityView<P, R, M>>,
    kind: TransformKind,
    from_position: FP,
    from_rotation: FR,
    from_both: FB,
) where FP: Fn(&P) -> M, FR: Fn(&R) -> M, FB: Fn(&P, &R) -> M
    requires
        locally_updated(Some(before), after, kind, from_position, from_rotation, from_both),
        !inputs_changed(before),
        target_of(before, kind) is Some,
    ensures
        after == Some(before),
{
}

/// Two stores hold the same hierarchy: the same entities are alive in both,
/// with the same `Parent`, `PreviousParent` and `Children`.
pub open spec fn same_hierarchy<P, R, M>(a: WorldView<P, R, M>, b: WorldView<P, R, M>) -> bool {
    &&& a.len() == b.len()
    &&& forall|e: Entity|
        #![trigger a.get(e)]
        #![trigger b.get(e)]
        match (a.get(e), b.get(e)) {
            (None, None) => true,
            (Some(v), Some(u)) => v.parent == u.parent && v.previous_parent == u.previous_parent
                && v.children == u.children,
            _ => false,
        }
}

/// A store that holds the same hierarchy as a synchronized one is
/// synchronized.
pub proof fn lemma_same_hierarchy_in_sync<P, R, M>(a: WorldView<P, R, M>, b: WorldView<P, R, M>)
    requires
        same_hierarchy(a, b),
        in_sync(a),
    ensures
        in_sync(b),
{
    assert forall|e: Entity|
        b.alive(e) == a.alive(e) && b.parent_of(e) == a.parent_of(e) && b.parent_changed(e)
            == a.parent_changed(e) && b.remembered_parent(e) == a.remembered_parent(e)
            && b.children_of(e) == a.children_of(e) by {
        assert(a.get(e) is Some <==> b.get(e) is Some);
    }
    assert forall|p: Entity, x: Entity|
        b.children_of(p) is Some && #[trigger] b.children_of(p)->0.contains(x.id) implies x.id
            < b.len() by {
        assert(a.children_of(p) is Some && a.children_of(p)->0.contains(x.id));
    }
    assert forall|x: Entity| (#[trigger] b.remembered_parent(x)) is Some implies b.remembered_parent(
        x,
    )->0.id < b.len() by {
        assert(a.remembered_parent(x) is Some);
    }
    assert forall|p: Entity, x: Entity|
        #![trigger b.remembered_parent(x), b.children_of(p)]
        b.children_of(p) is Some && b.children_of(p)->0.contains(x.id) && b.alive(x)
            implies b.remembered_parent(x) == Some(p) by {
        assert(a.children_of(p) is Some && a.children_of(p)->0.contains(x.id));
        assert(a.remembered_parent(x) == Some(p));
    }
    assert forall|p: Entity, x: Entity|
        #![trigger b.remembered_parent(x), b.children_of(p)]
        b.remembered_parent(x) == Some(p) && b.alive(p) implies b.children_of(p) is Some
            && b.children_of(p)->0.contains(x.id) by {
        assert(a.remembered_parent(x) == Some(p));
        assert(a.children_of(p) is Some && a.children_of(p)->0.contains(x.id));
    }
    assert forall|x: Entity|
        b.parent_of(x) is Some && !#[trigger] b.parent_changed(x) implies b.remembered_parent(x)
            == b.parent_of(x) by {
        assert(a.parent_of(x) is Some && !a.parent_changed(x));
    }
    assert forall|x: Entity| #[trigger] b.remembered_parent(x) == b.parent_of(x) by {
        assert(a.remembered_parent(x) == a.parent_of(x));
    }
    assert forall|x: Entity| !#[trigger] b.parent_changed(x) by {
        assert(!a.parent_changed(x));
    }
    assert forall|x: Entity| #[trigger] b.parent_of(x) is Some implies b.alive(
        b.parent_of(x)->0,
    ) by {
        assert(a.parent_of(x) is Some ==> a.alive(a.parent_of(x)->0));
    }
}

/// A local transform update leaves the hierarchy as it is.
pub proof fn lemma_local_update_keeps_hierarchy<P, R, M, FP, FR, FB>(
    before: WorldView<P, R, M>,
    after: WorldView<P, R, M>,
    kind: TransformKind,
    from_position: FP,
    from_rotation: FR,
    from_both: FB,
) where FP: Fn(&P) -> M, FR: Fn(&R) -> M, FB: Fn(&P, &R) -> M
    requires
        updated_locally(before, after, kind, from_position, from_rotation, from_both),
    ensures
        same_hierarchy(before, after),
{
    assert forall|e: Entity|
        #![trigger before.get(e)]
        #![trigger after.get(e)]
        match (before.get(e), after.get(e)) {
            (None, None) => true,
            (Some(v), Some(u)) => v.parent == u.parent && v.previous_parent == u.previous_parent
                && v.children == u.children,
            _ => false,
        } by {
        if e.id < before.len() {
            assert(locally_updated(
                before.entities[e.id as int],
                after.entities[e.id as int],
                kind,
                from_position,
                from_rotation,
                from_both,
            ));
        }
    }
}

/// After the stages of one update cycle on a store with consistent
/// bookkeeping, the hierarchy is synchronized; the child lists were sound
/// when the world transforms were carried down, so they were carried down.
pub proof fn lemma_cycle_ends_in_sync<P, R, M, FP, FR, FB, F>(
    start: WorldView<P, R, M>,
    roots_done: WorldView<P, R, M>,
    locals_done: WorldView<P, R, M>,
    end: WorldView<P, R, M>,
    from_position: FP,
    from_rotation: FR,
    from_both: FB,
    compose: F,
) where FP: Fn(&P) -> M, FR: Fn(&R) -> M, FB: Fn(&P, &R) -> M, F: Fn(&M, &M) -> M
    requires
        consistent(start),
        cycle_stages(
            start,
            roots_done,
            locals_done,
            end,
            from_position,
            from_rotation,
            from_both,
            compose,
        ),
    ensures
        lists_are_sound(locals_done),
        composed(locals_done, end, compose),
        in_sync(end),
{
    lemma_synced_is_in_sync(start);
    lemma_local_update_keeps_hierarchy(
        synced(start),
        roots_done,
        TransformKind::World,
        from_position,
        from_rotation,
        from_both,
    );
    lemma_same_hierarchy_in_sync(synced(start), roots_done);
    lemma_local_update_keeps_hierarchy(
        roots_done,
        locals_done,
        TransformKind::Parent,
        from_position,
        from_rotation,
        from_both,
    );
    lemma_same_hierarchy_in_sync(roots_done, locals_done);
    lemma_in_sync_lists_are_sound(locals_done);
    assert(same_hierarchy(locals_done, end));
    lemma_same_hierarchy_in_sync(locals_done, end);
}

/// In a synchronized hierarchy nothing is left to do: no entity leaves or
/// joins a child list, none remembers a stale parent, none is orphaned, and
/// the synchronizer would leave every entity as it is.
pub proof fn lemma_in_sync_is_settled<P, R, M>(w: WorldView<P, R, M>)
    requires
        in_sync(w),
    ensures
        forall|e: Entity| !#[trigger] refreshes(w, e),
        forall|e: Entity| !#[trigger] orphaned(w, e),
        forall|p: Entity| #[trigger] joiners(w, p) == Seq::<usize>::empty(),
        forall|e: Entity| #[trigger] edited_entity(w, e) == w.get(e),
{
    assert forall|e: Entity| !#[trigger] refreshes(w, e) by {
        assert(w.remembered_parent(e) == w.parent_of(e));
        assert(!w.parent_changed(e));
    }
    assert forall|e: Entity| !#[trigger] orphaned(w, e) by {
        assert(w.parent_of(e) is Some ==> w.alive(w.parent_of(e)->0));
    }
    assert forall|p: Entity| #[trigger] joiners(w, p) == Seq::<usize>::empty() by {
        lemma_filter_members(entity_ids(w.len()), joins_into(w, p));
        let j = joiners(w, p);
        if j.len() > 0 {
            assert(j.contains(j[0]));
            assert(joins(w, Entity { id: j[0] }, p));
            assert(!w.parent_changed(Entity { id: j[0] }));
        }
        assert(j =~= Seq::<usize>::empty());
    }
    assert forall|e: Entity| #[trigger] edited_entity(w, e) == w.get(e) by {
        if let Some(v) = w.get(e) {
            assert(!w.parent_changed(e));
            if let Some(c) = v.children {
                assert forall|k: int| 0 <= k < c.len() implies stays_in(w, e)(#[trigger] c[k]) by {
                    let x = Entity { id: c[k] };
                    assert(w.remembered_parent(x) == w.parent_of(x));
                    assert(!w.parent_changed(x));
                }
                lemma_filter_all(c, stays_in(w, e));
                assert(c + Seq::<usize>::empty() =~= c);
            }
            assert(edited_entity(w, e)->0 =~= v);
        }
    }
}

/// The entity is `p` or below `p`: the parent pointers lead from it up to
/// `p`.
pub open spec fn at_or_below<P, R, M>(w: WorldView<P, R, M>, e: Entity, p: Entity) -> bool {
    exists|k: nat| #[trigger] ancestor(w, e, k) == Some(p)
}

/// In a synchronized hierarchy every ancestor of a live entity is alive.
proof fn lemma_ancestors_alive<P, R, M>(w: WorldView<P, R, M>, e: Entity, k: nat)
    requires
        in_sync(w),
        w.alive(e),
        ancestor(w, e, k) is Some,
    ensures
        w.alive(ancestor(w, e, k)->0),
    decreases k,
{
    if k > 0 {
        let below = ancestor(w, e, (k - 1) as nat)->0;
        lemma_ancestors_alive(w, e, (k - 1) as nat);
        assert(w.parent_of(below) is Some ==> w.alive(w.parent_of(below)->0));
    }
}

/// Deleting `p` leaves the way up from an entity as it is, as far as the
/// way does not come to `p`.
proof fn lemma_way_up_stays<P, R, M>(w: WorldView<P, R, M>, p: Entity, e: Entity, k: nat)
    requires
        forall|j: nat| j < k ==> #[trigger] ancestor(w, e, j) != Some(p),
    ensures
        ancestor(w.without(p), e, k) == ancestor(w, e, k),
    decreases k,
{
    if k > 0 {
        lemma_way_up_stays(w, p, e, (k - 1) as nat);
        assert(ancestor(w, e, (k - 1) as nat) != Some(p));
        if let Some(a) = ancestor(w, e, (k - 1) as nat) {
            assert(a != p);
            assert(w.without(p).get(a) == w.get(a));
        }
    }
}

/// Where the way up from an entity comes to `p`, there is a first time.
proof fn lemma_first_time<P, R, M>(w: WorldView<P, R, M>, e: Entity, p: Entity, k: nat) -> (m: nat)
    requires
        ancestor(w, e, k) == Some(p),
    ensures
        m <= k,
        ancestor(w, e, m) == Some(p),
        forall|j: nat| j < m ==> #[trigger] ancestor(w, e, j) != Some(p),
    decreases k,
{
    if exists|j: nat| j < k && #[trigger] ancestor(w, e, j) == Some(p) {
        let j = choose|j: nat| j < k && #[trigger] ancestor(w, e, j) == Some(p);
        lemma_first_time(w, e, p, j)
    } else {
        k
    }
}

/// **Cascade after a deletion.** When a live entity `p` of a synchronized
/// hierarchy is deleted, the next synchronization leaves dead `p` and
/// everything below it, and leaves alive every other entity that was alive.
pub proof fn lemma_deleting_a_parent<P, R, M>(w: WorldView<P, R, M>, p: Entity, e: Entity)
    requires
        in_sync(w),
        w.alive(p),
    ensures
        synced(w.without(p)).alive(e) <==> (w.alive(e) && !at_or_below(w, e, p)),
{
    let after = w.without(p);
    lemma_consistent_after_delete(w, p);
    lemma_cascade(after, e);
    if e == p {
        assert(ancestor(w, p, 0) == Some(p));
    } else if w.alive(e) {
        assert(after.get(e) == w.get(e));
        if at_or_below(w, e, p) {
            let k = choose|k: nat| #[trigger] ancestor(w, e, k) == Some(p);
            let m = lemma_first_time(w, e, p, k);
            lemma_way_up_stays(w, p, e, m);
            assert(ancestor(after, e, m) is Some && !after.alive(ancestor(after, e, m)->0));
        } else {
            if has_dead_ancestor(after, e) {
                let k = choose|k: nat|
                    (#[trigger] ancestor(after, e, k)) is Some && !after.alive(
                        ancestor(after, e, k)->0,
                    );
                assert forall|j: nat| j < k implies #[trigger] ancestor(w, e, j) != Some(p) by {}
                lemma_way_up_stays(w, p, e, k);
                lemma_ancestors_alive(w, e, k);
                let a = ancestor(w, e, k)->0;
                assert(a != p);
                assert(after.get(a) == w.get(a));
            }
        }
    } else {
        assert(!after.alive(e));
    }
}

/// **A cycle keeps the hierarchy synchronized.** After one update cycle on
/// a store with consistent bookkeeping the hierarchy is synchronized, and
/// with it the bookkeeping is consistent for the writes that follow.
pub proof fn lemma_cycled_is_in_sync<P, R, M, FP, FR, FB, F>(
    start: WorldView<P, R, M>,
    end: WorldView<P, R, M>,
    from_position: FP,
    from_rotation: FR,
    from_both: FB,
    compose: F,
) where FP: Fn(&P) -> M, FR: Fn(&R) -> M, FB: Fn(&P, &R) -> M, F: Fn(&M, &M) -> M
    requires
        consistent(start),
        cycled(start, end, from_position, from_rotation, from_both, compose),
    ensures
        in_sync(end),
        consistent(end),
{
    let (roots_done, locals_done) = choose|
        roots_done: WorldView<P, R, M>,
        locals_done: WorldView<P, R, M>,
    | #[trigger]
        cycle_stages(
            start,
            roots_done,
            locals_done,
            end,
            from_position,
            from_rotation,
            from_both,
            compose,
        );
    lemma_cycle_ends_in_sync(
        start,
        roots_done,
        locals_done,
        end,
        from_position,
        from_rotation,
        from_both,
        compose,
    );
}

} // verus!
