//! The hierarchy synchronizer: it derives the child lists from the parent
//! pointers and deletes every entity whose parent is gone.

use vstd::prelude::*;
use std::collections::HashMap;
use std::collections::HashSet;
use crate::ecs::command::{
    acts_as, enact_all, flushed, lemma_enact_all_concat, lemma_enact_all_dead,
    lemma_enact_all_push, CommandBuffer, CommandView,
};
use crate::ecs::entity::Entity;
use crate::ecs::view::{EntityView, WorldView};
use crate::ecs::world::World;
use crate::transform::components::children::{other_than, Children};
use crate::transform::components::previous_parent::PreviousParent;
use crate::transform::hierarchy::{
    acknowledged, deferred_by_sync, doomed, doomed_within, edited_entity, entity_ids, heir_of,
    in_sync, joiners, joins, joins_into, leaves, orphaned, refreshes, stays_in, synced,
    synced_children, synced_previous_parent,
};
use crate::transform::laws::lemma_in_sync_is_settled;
use crate::transform::seq_facts::{
    lemma_filter_agree, lemma_filter_all, lemma_filter_filter, lemma_filter_members,
};

verus! {

/// The test that keeps, in the child list of `q`, what does not leave it
/// among the entities below `i`.
spec fn stays_until<P, R, M>(w: WorldView<P, R, M>, q: Entity, i: nat) -> spec_fn(usize) -> bool {
    |x: usize| !(x < i && leaves(w, Entity { id: x }, q))
}

/// The entities below `i` that join `p`, in ascending order.
spec fn joiners_until<P, R, M>(w: WorldView<P, R, M>, p: Entity, i: nat) -> Seq<usize> {
    entity_ids(i).filter(joins_into(w, p))
}

/// The child list of `p` once the entities below `i` are dealt with, given
/// the list `c` that it had.
spec fn children_until<P, R, M>(w: WorldView<P, R, M>, p: Entity, c: Seq<usize>, i: nat) -> Seq<
    usize,
> {
    c.filter(stays_until(w, p, i)) + joiners_until(w, p, i)
}

/// What the store holds of entity `j` once the entities below `i` are dealt
/// with: flags of the entities below `i` are clear, and the existing child
/// lists are edited in place.
spec fn partly<P, R, M>(w: WorldView<P, R, M>, j: int, i: nat) -> Option<EntityView<P, R, M>> {
    match w.entities[j] {
        None => None,
        Some(v) => Some(
            EntityView {
                parent: if j < i {
                    acknowledged(v.parent)
                } else {
                    v.parent
                },
                children: match v.children {
                    Some(c) => Some(children_until(w, Entity { id: j as usize }, c, i)),
                    None => None,
                },
                ..v
            },
        ),
    }
}

/// What the recorded operations do to entity `id` once the entities below
/// `i` are dealt with: they refresh its `PreviousParent` where it is stale.
spec fn refreshed<P, R, M>(w: WorldView<P, R, M>, id: usize, i: nat, v: EntityView<P, R, M>)
    -> EntityView<P, R, M> {
    if id < i && refreshes(w, Entity { id }) {
        EntityView { previous_parent: synced_previous_parent(w, Entity { id }), ..v }
    } else {
        v
    }
}

/// The identifiers below `i + 1` are those below `i` and then `i`.
proof fn lemma_ids_push(i: nat)
    requires
        i <= usize::MAX,
    ensures
        entity_ids(i + 1) == entity_ids(i).push(i as usize),
        forall|k: int| 0 <= k < entity_ids(i).len() ==> #[trigger] entity_ids(i)[k] == k as usize,
{
    assert(entity_ids(i + 1) =~= entity_ids(i).push(i as usize));
}

/// Before any entity is dealt with, every list is as it was.
proof fn lemma_children_start<P, R, M>(w: WorldView<P, R, M>, p: Entity, c: Seq<usize>)
    ensures
        children_until(w, p, c, 0) == c,
{
    lemma_filter_all(c, stays_until(w, p, 0));
    reveal(Seq::filter);
    assert(entity_ids(0) =~= Seq::<usize>::empty());
    assert(joiners_until(w, p, 0) =~= Seq::<usize>::empty());
    assert(c + Seq::<usize>::empty() =~= c);
}

/// Once every entity is dealt with, a list holds those that stay and then
/// those that join.
proof fn lemma_children_end<P, R, M>(w: WorldView<P, R, M>, p: Entity, c: Seq<usize>)
    ensures
        children_until(w, p, c, w.len()) == c.filter(stays_in(w, p)) + joiners(w, p),
{
    lemma_filter_agree(c, stays_until(w, p, w.len()), stays_in(w, p));
}

/// Dealing with entity `i` changes the list of `p` so: the entity is taken
/// out if it leaves `p`, and appended if it joins `p`.
proof fn lemma_children_step<P, R, M>(w: WorldView<P, R, M>, p: Entity, c: Seq<usize>, i: nat)
    requires
        i < w.len(),
        i <= usize::MAX,
    ensures
        leaves(w, Entity { id: i as usize }, p) ==> children_until(w, p, c, i + 1)
            == children_until(w, p, c, i).filter(other_than(i as usize)),
        joins(w, Entity { id: i as usize }, p) ==> children_until(w, p, c, i + 1)
            == children_until(w, p, c, i).push(i as usize),
        !leaves(w, Entity { id: i as usize }, p) && !joins(w, Entity { id: i as usize }, p)
            ==> children_until(w, p, c, i + 1) == children_until(w, p, c, i),
        joiners_until(w, p, i + 1) == (if joins(w, Entity { id: i as usize }, p) {
            joiners_until(w, p, i).push(i as usize)
        } else {
            joiners_until(w, p, i)
        }),
{
    let e = Entity { id: i as usize };
    let kept = c.filter(stays_until(w, p, i));
    let gained = joiners_until(w, p, i);
    lemma_ids_push(i);
    entity_ids(i).lemma_filter_push(i as usize, joins_into(w, p));
    if leaves(w, e, p) {
        let ne = other_than(i as usize);
        lemma_filter_filter(c, stays_until(w, p, i), ne, stays_until(w, p, i + 1));
        lemma_filter_members(entity_ids(i), joins_into(w, p));
        assert forall|k: int| 0 <= k < gained.len() implies ne(#[trigger] gained[k]) by {
            assert(gained.contains(gained[k]));
            assert(entity_ids(i).contains(gained[k]));
        }
        lemma_filter_all(gained, ne);
        Seq::filter_distributes_over_add(kept, gained, ne);
    } else {
        lemma_filter_agree(c, stays_until(w, p, i), stays_until(w, p, i + 1));
        if joins(w, e, p) {
            assert(kept + gained.push(i as usize) =~= (kept + gained).push(i as usize));
        }
    }
}

/// Put a child into the list that is staged for a parent, starting a list
/// where none is staged yet.
fn stage(staging: &mut HashMap<usize, Children>, parent: Entity, child: Entity)
    ensures
        final(staging)@.dom() == old(staging)@.dom().insert(parent.id),
        final(staging)@[parent.id]@ == (if old(staging)@.contains_key(parent.id) {
            old(staging)@[parent.id]@
        } else {
            Seq::<usize>::empty()
        }).push(child.id),
        forall|k: usize|
            k != parent.id && old(staging)@.contains_key(k) ==> final(staging)@[k] == old(
                staging,
            )@[k],
{
    broadcast use vstd::std_specs::hash::group_hash_axioms;

    let mut list = match staging.remove(&parent.id) {
        Some(list) => list,
        None => Children::new(),
    };
    list.push(child);
    staging.insert(parent.id, list);
}

/// The first part of a synchronization: go through the entities once, edit
/// the existing child lists, record the new `PreviousParent`s, stage the
/// lists of parents that have none, and collect the orphaned entities.
fn reconcile<P, R, M>(
    world: &mut World<P, R, M>,
    cmd: &mut CommandBuffer<M>,
    entities_to_remove: &mut Vec<Entity>,
    children_to_insert: &mut HashMap<usize, Children>,
) -> (pending: Ghost<Seq<CommandView<M>>>)
    requires
        old(entities_to_remove)@.len() == 0,
        old(children_to_insert)@ == Map::<usize, Children>::empty(),
    ensures
        final(world)@.len() == old(world)@.len(),
        forall|j: int|
            0 <= j < old(world)@.len() ==> #[trigger] final(world)@.entities[j] == partly(
                old(world)@,
                j,
                old(world)@.len(),
            ),
        final(cmd)@ == old(cmd)@ + pending@,
        (forall|e: Entity| !#[trigger] refreshes(old(world)@, e)) ==> pending@.len() == 0,
        forall|id: usize, v: EntityView<P, R, M>| #[trigger]
            enact_all(Some(v), id, pending@) == Some(
                refreshed(old(world)@, id, old(world)@.len(), v),
            ),
        forall|e: Entity| #[trigger] final(entities_to_remove)@.contains(e) <==> orphaned(old(world)@, e),
        forall|p: usize| #[trigger]
            final(children_to_insert)@.contains_key(p) <==> (old(world)@.children_of(
                Entity { id: p },
            ) is None && joiners(old(world)@, Entity { id: p }).len() > 0),
        forall|p: usize| #[trigger]
            final(children_to_insert)@.contains_key(p) ==> final(children_to_insert)@[p]@
                == joiners(old(world)@, Entity { id: p }),
{
    let ghost w0 = world@;
    let ghost cmd0 = cmd@;
    let ghost mut pending: Seq<CommandView<M>> = Seq::empty();
    let n = world.len();
    let mut i: usize = 0;
    proof {
        assert(cmd@ =~= cmd0 + pending);
        assert forall|j: int| 0 <= j < n implies #[trigger] world@.entities[j] == partly(
            w0,
            j,
            0,
        ) by {
            if let Some(v) = w0.entities[j] {
                if let Some(c) = v.children {
                    lemma_children_start(w0, Entity { id: j as usize }, c);
                }
            }
        }
        assert forall|p: usize| joiners_until(w0, Entity { id: p }, 0).len() == 0 by {
            reveal(Seq::filter);
            assert(entity_ids(0) =~= Seq::<usize>::empty());
        }
    }
    while i < n
        invariant
            n == w0.len(),
            i <= n,
            world@.len() == n,
            forall|j: int| 0 <= j < n ==> #[trigger] world@.entities[j] == partly(w0, j, i as nat),
            cmd@ == cmd0 + pending,
            (forall|e: Entity| !#[trigger] refreshes(w0, e)) ==> pending.len() == 0,
            forall|id: usize, v: EntityView<P, R, M>| #[trigger]
                enact_all(Some(v), id, pending) == Some(refreshed(w0, id, i as nat, v)),
            forall|e: Entity| #[trigger]
                entities_to_remove@.contains(e) <==> (e.id < i && orphaned(w0, e)),
            forall|p: usize| #[trigger]
                children_to_insert@.contains_key(p) <==> (w0.children_of(Entity { id: p }) is None
                    && joiners_until(w0, Entity { id: p }, i as nat).len() > 0),
            forall|p: usize| #[trigger]
                children_to_insert@.contains_key(p) ==> children_to_insert@[p]@ == joiners_until(
                    w0,
                    Entity { id: p },
                    i as nat,
                ),
        decreases n - i,
    {
        let entity = Entity { id: i };
        let ghost before = world@;
        let ghost staged = children_to_insert@;
        let ghost doomed_so_far = entities_to_remove@;
        let ghost recorded = pending;
        let ghost mut left: Option<Entity> = None;
        let ghost mut joined: Option<Entity> = None;
        assert(world@.entities[i as int] == partly(w0, i as int, i as nat));
        match world.parent(entity) {
            None => {
                if let Some(previous) = world.previous_parent(entity) {
                    if let Some(old_parent) = previous.inner() {
                        world.remove_child(old_parent, entity);
                        cmd.add_previous_parent(entity, PreviousParent::new());
                        proof {
                            left = Some(old_parent);
                            pending = pending.push(
                                CommandView::AddPreviousParent(entity, PreviousParent(None)),
                            );
                        }
                    }
                }
            },
            Some(parent) => {
                let parent = parent.entity();
                if world.is_parent_changed(entity) {
                    let remembered = match world.previous_parent(entity) {
                        Some(previous) => previous.inner(),
                        None => None,
                    };
                    let same = match remembered {
                        Some(old_parent) => old_parent.id == parent.id,
                        None => false,
                    };
                    if same {
                        if !world.is_alive(parent) {
                            entities_to_remove.push(entity);
                        }
                    } else {
                        if let Some(old_parent) = remembered {
                            world.remove_child(old_parent, entity);
                            proof {
                                left = Some(old_parent);
                            }
                        }
                        cmd.add_previous_parent(entity, PreviousParent::from_entity(parent));
                        proof {
                            pending = pending.push(
                                CommandView::AddPreviousParent(
                                    entity,
                                    PreviousParent(Some(parent)),
                                ),
                            );
                        }
                        if world.is_alive(parent) {
                            if !world.add_child(parent, entity) {
                                stage(children_to_insert, parent, entity);
                            }
                            proof {
                                joined = Some(parent);
                            }
                        } else {
                            entities_to_remove.push(entity);
                        }
                    }
                    world.acknowledge_parent(entity);
                } else {
                    if !world.is_alive(parent) {
                        entities_to_remove.push(entity);
                    }
                }
            },
        }
        proof {
            assert(cmd@ =~= cmd0 + pending);
            assert(pending != recorded ==> refreshes(w0, entity));
            assert(forall|q: Entity| leaves(w0, entity, q) <==> left == Some(q));
            assert(forall|q: Entity| joins(w0, entity, q) <==> joined == Some(q));
            assert forall|j: int| 0 <= j < n implies #[trigger] world@.entities[j] == partly(
                w0,
                j,
                (i + 1) as nat,
            ) by {
                assert(before.entities[j] == partly(w0, j, i as nat));
                if let Some(v) = w0.entities[j] {
                    if let Some(c) = v.children {
                        lemma_children_step(w0, Entity { id: j as usize }, c, i as nat);
                    }
                }
            }
            assert forall|id: usize, v: EntityView<P, R, M>| #[trigger]
                enact_all(Some(v), id, pending) == Some(
                    refreshed(w0, id, (i + 1) as nat, v),
                ) by {
                assert(enact_all(Some(v), id, recorded) == Some(refreshed(w0, id, i as nat, v)));
                if pending != recorded {
                    lemma_enact_all_push(Some(v), id, recorded, pending.last());
                }
            }
            assert forall|e: Entity| #[trigger]
                entities_to_remove@.contains(e) <==> (e.id < i + 1 && orphaned(w0, e)) by {
                assert(doomed_so_far.contains(e) <==> (e.id < i && orphaned(w0, e)));
                if entities_to_remove@ != doomed_so_far {
                    assert(entities_to_remove@ == doomed_so_far.push(entity));
                    assert(entities_to_remove@.last() == entity);
                    if doomed_so_far.contains(e) {
                        let k = choose|k: int| 0 <= k < doomed_so_far.len() && doomed_so_far[k] == e;
                        assert(entities_to_remove@[k] == e);
                    }
                }
            }
            assert forall|p: usize|
                (#[trigger] children_to_insert@.contains_key(p) <==> (w0.children_of(
                    Entity { id: p },
                ) is None && joiners_until(w0, Entity { id: p }, (i + 1) as nat).len() > 0)) && (
                children_to_insert@.contains_key(p) ==> children_to_insert@[p]@ == joiners_until(
                    w0,
                    Entity { id: p },
                    (i + 1) as nat,
                )) by {
                assert(staged.contains_key(p) <==> (w0.children_of(Entity { id: p }) is None
                    && joiners_until(w0, Entity { id: p }, i as nat).len() > 0));
                lemma_children_step(w0, Entity { id: p }, Seq::<usize>::empty(), i as nat);
            }
        }
        i += 1;
    }
    proof {
        assert forall|p: usize| joiners_until(w0, Entity { id: p }, n as nat) == joiners(
            w0,
            Entity { id: p },
        ) by {}
    }
    Ghost(pending)
}

/// The child list that the cascade finds for an entity: the one in the
/// store or, where there is none, the one that is staged.
spec fn below<P, R, M>(w: WorldView<P, R, M>, staging: Map<usize, Children>, x: usize) -> Seq<
    usize,
> {
    match w.children_of(Entity { id: x }) {
        Some(c) => c,
        None => if staging.contains_key(x) {
            staging[x]@
        } else {
            Seq::empty()
        },
    }
}

/// The identifiers below `n` that are not yet removed.
spec fn unvisited(n: nat, removed: Set<usize>) -> Set<usize> {
    Set::new(|x: usize| x < n && !removed.contains(x))
}

proof fn lemma_unvisited_finite(n: nat, removed: Set<usize>)
    ensures
        unvisited(n, removed).finite(),
    decreases n,
{
    if n == 0 {
        assert(unvisited(n, removed) =~= Set::<usize>::empty());
    } else {
        lemma_unvisited_finite((n - 1) as nat, removed);
        let smaller = unvisited((n - 1) as nat, removed);
        if n - 1 <= usize::MAX && !removed.contains((n - 1) as usize) {
            assert(unvisited(n, removed) =~= smaller.insert((n - 1) as usize));
        } else {
            assert(unvisited(n, removed) =~= smaller);
        }
    }
}

/// Removing one more identifier below `n` leaves fewer unvisited.
proof fn lemma_unvisited_shrinks(n: nat, before: Set<usize>, after: Set<usize>, x: usize)
    requires
        before.subset_of(after),
        after.contains(x),
        !before.contains(x),
        x < n,
    ensures
        unvisited(n, after).len() < unvisited(n, before).len(),
{
    lemma_unvisited_finite(n, before);
    lemma_unvisited_finite(n, after);
    let a = unvisited(n, after);
    let b = unvisited(n, before);
    assert(a.subset_of(b.remove(x)));
    vstd::set_lib::lemma_len_subset(a, b.remove(x));
}

/// What a list of deletions does to an entity: it is gone if it is among
/// the newly removed, untouched otherwise.
spec fn deletes<P, R, M>(
    cmds: Seq<CommandView<M>>,
    before: Set<usize>,
    after: Set<usize>,
) -> bool {
    forall|id: usize, v: EntityView<P, R, M>| #[trigger]
        enact_all(Some(v), id, cmds) == (if after.contains(id) && !before.contains(id) {
            None
        } else {
            Some(v)
        })
}

/// Delete the given entities and, below each, every entity of its child
/// list, and so on downwards; an entity that is already removed is passed
/// over, so nothing is deleted twice.
fn delete_entities_and_children_recursive<P, R, M>(
    cmd: &mut CommandBuffer<M>,
    world: &World<P, R, M>,
    children_to_insert: &HashMap<usize, Children>,
    removed: &mut HashSet<usize>,
    entities_to_remove: &Vec<Entity>,
    Ghost(condemned): Ghost<spec_fn(usize) -> bool>,
) -> (deletions: Ghost<Seq<CommandView<M>>>)
    requires
        forall|p: usize| #[trigger] children_to_insert@.contains_key(p) ==> p < world@.len(),
        forall|k: int|
            0 <= k < entities_to_remove@.len() ==> condemned(#[trigger] entities_to_remove@[k].id),
        forall|x: usize, k: int|
            condemned(x) && 0 <= k < below(world@, children_to_insert@, x).len() ==> condemned(
                #[trigger] below(world@, children_to_insert@, x)[k],
            ),
    ensures
        old(removed)@.subset_of(final(removed)@),
        final(cmd)@ == old(cmd)@ + deletions@,
        entities_to_remove@.len() == 0 ==> deletions@.len() == 0,
        deletes::<P, R, M>(deletions@, old(removed)@, final(removed)@),
        forall|k: int|
            0 <= k < entities_to_remove@.len() ==> final(removed)@.contains(
                #[trigger] entities_to_remove@[k].id,
            ),
        forall|x: usize, k: int|
            final(removed)@.contains(x) && !old(removed)@.contains(x) && 0 <= k < below(
                world@,
                children_to_insert@,
                x,
            ).len() ==> final(removed)@.contains(
                #[trigger] below(world@, children_to_insert@, x)[k],
            ),
        forall|x: usize|
            #[trigger] final(removed)@.contains(x) && !old(removed)@.contains(x) ==> condemned(x),
    decreases unvisited(world@.len(), old(removed)@).len(),
{
    broadcast use vstd::std_specs::hash::group_hash_axioms;

    let ghost cmd0 = cmd@;
    let ghost removed0 = removed@;
    let ghost mut deletions: Seq<CommandView<M>> = Seq::empty();
    let count = entities_to_remove.len();
    let mut k: usize = 0;
    proof {
        assert(cmd@ =~= cmd0 + deletions);
    }
    while k < count
        invariant
            count == entities_to_remove@.len(),
            k <= count,
            forall|p: usize| #[trigger] children_to_insert@.contains_key(p) ==> p < world@.len(),
            forall|j: int|
                0 <= j < entities_to_remove@.len() ==> condemned(
                    #[trigger] entities_to_remove@[j].id,
                ),
            forall|x: usize, j: int|
                condemned(x) && 0 <= j < below(world@, children_to_insert@, x).len() ==> condemned(
                    #[trigger] below(world@, children_to_insert@, x)[j],
                ),
            removed0.subset_of(removed@),
            cmd@ == cmd0 + deletions,
            count == 0 ==> deletions.len() == 0,
            deletes::<P, R, M>(deletions, removed0, removed@),
            forall|j: int| 0 <= j < k ==> removed@.contains(#[trigger] entities_to_remove@[j].id),
            forall|x: usize, j: int|
                removed@.contains(x) && !removed0.contains(x) && 0 <= j < below(
                    world@,
                    children_to_insert@,
                    x,
                ).len() ==> removed@.contains(#[trigger] below(world@, children_to_insert@, x)[j]),
            forall|x: usize| #[trigger] removed@.contains(x) && !removed0.contains(x) ==> condemned(x),
            removed0 == old(removed)@,
        decreases count - k,
    {
        let entity = entities_to_remove[k];
        if !removed.contains(&entity.id) {
            let ghost removed1 = removed@;
            let ghost deletions1 = deletions;
            cmd.delete(entity);
            removed.insert(entity.id);
            let ghost removed2 = removed@;
            let ghost deletions2 = deletions1.push(CommandView::Delete(entity));
            proof {
                deletions = deletions2;
                assert(cmd@ =~= cmd0 + deletions);
                assert forall|id: usize, v: EntityView<P, R, M>| #[trigger]
                    enact_all(Some(v), id, deletions2) == (if removed2.contains(id)
                        && !removed0.contains(id) {
                        None
                    } else {
                        Some(v)
                    }) by {
                    lemma_enact_all_push(Some(v), id, deletions1, CommandView::Delete(entity));
                    assert(enact_all(Some(v), id, deletions1) == (if removed1.contains(id)
                        && !removed0.contains(id) {
                        None::<EntityView<P, R, M>>
                    } else {
                        Some(v)
                    }));
                }
            }
            let heirs: Option<Vec<Entity>> = match world.children(entity) {
                Some(children) => Some(children.to_vec()),
                None => match children_to_insert.get(&entity.id) {
                    Some(children) => Some(children.to_vec()),
                    None => None,
                },
            };
            if let Some(heirs) = heirs {
                proof {
                    assert(entity.id < world@.len());
                    lemma_unvisited_shrinks(world@.len(), removed0, removed2, entity.id);
                    assert(heirs@.len() == below(world@, children_to_insert@, entity.id).len());
                    assert forall|j: int| 0 <= j < heirs@.len() implies condemned(
                        #[trigger] heirs@[j].id,
                    ) by {
                        assert(heirs@[j].id == below(world@, children_to_insert@, entity.id)[j]);
                    }
                }
                let further = delete_entities_and_children_recursive(
                    cmd,
                    world,
                    children_to_insert,
                    removed,
                    &heirs,
                    Ghost(condemned),
                );
                proof {
                    deletions = deletions2 + further@;
                    assert(cmd@ =~= cmd0 + deletions);
                    assert forall|id: usize, v: EntityView<P, R, M>| #[trigger]
                        enact_all(Some(v), id, deletions) == (if removed@.contains(id)
                            && !removed0.contains(id) {
                            None
                        } else {
                            Some(v)
                        }) by {
                        lemma_enact_all_concat(Some(v), id, deletions2, further@);
                        lemma_enact_all_dead::<P, R, M>(id, further@);
                        assert(enact_all(Some(v), id, further@) == (if removed@.contains(id)
                            && !removed2.contains(id) {
                            None::<EntityView<P, R, M>>
                        } else {
                            Some(v)
                        }));
                    }
                    assert forall|x: usize, j: int|
                        removed@.contains(x) && !removed0.contains(x) && 0 <= j < below(
                            world@,
                            children_to_insert@,
                            x,
                        ).len() implies removed@.contains(
                        #[trigger] below(world@, children_to_insert@, x)[j],
                    ) by {
                        if x == entity.id {
                            assert(heirs@[j].id == below(world@, children_to_insert@, x)[j]);
                        }
                    }
                }
            } else {
                proof {
                    assert(below(world@, children_to_insert@, entity.id).len() == 0);
                }
            }
        }
        k += 1;
    }
    Ghost(deletions)
}

/// Whoever is listed below a deleted entity is deleted too.
proof fn lemma_doom_spreads<P, R, M>(w: WorldView<P, R, M>, d: Entity, e: Entity)
    requires
        doomed(w, d),
        heir_of(w, e, d),
    ensures
        doomed(w, e),
{
    let n = choose|n: nat| doomed_within(w, d, n);
    assert(doomed_within(w, e, n + 1));
}

/// A set that holds the orphaned entities and, with an entity, all that is
/// listed below it, holds every entity that the cascade deletes.
proof fn lemma_doom_is_covered<P, R, M>(
    w: WorldView<P, R, M>,
    removed: Set<usize>,
    e: Entity,
    n: nat,
)
    requires
        doomed_within(w, e, n),
        forall|x: Entity| orphaned(w, x) ==> removed.contains(x.id),
        forall|d: Entity, x: Entity|
            removed.contains(d.id) && #[trigger] heir_of(w, x, d) ==> removed.contains(x.id),
    ensures
        removed.contains(e.id),
    decreases n,
{
    if !orphaned(w, e) {
        let d = choose|d: Entity| doomed_within(w, d, (n - 1) as nat) && #[trigger] heir_of(w, e, d);
        lemma_doom_is_covered(w, removed, d, (n - 1) as nat);
    }
}

/// System descriptor for maintaining the hierarchy information from the
/// `Parent` components.
#[derive(Clone, Copy, Debug, Default, PartialEq, Eq, Hash)]
pub struct HierarchySyncSystem;

/// Build the system that maintains the hierarchy information collected from
/// the `Parent` components.
pub fn build_hierarchy_sync_system() -> (system: HierarchySyncSystem)
    ensures
        system == HierarchySyncSystem,
{
    HierarchySyncSystem
}

impl HierarchySyncSystem {
    /// Synchronize the hierarchy.
    ///
    /// The system goes through the live entities once, in ascending order:
    ///
    /// 1. an entity whose `Parent` was removed is taken out of the child list
    ///    of the parent that it remembers, and forgets that parent;
    /// 2. an entity whose `Parent` was added or replaced is taken out of the
    ///    child list of the parent that it remembers, remembers the new one
    ///    and is appended to its child list;
    /// 3. an entity whose parent, written or not, is no longer alive is
    ///    deleted, and so is everything below it.
    ///
    /// Existing child lists are edited in the store; new `PreviousParent`s,
    /// deletions and new child lists are recorded in the buffer. What is
    /// stated is the store that flushing those operations gives, and what
    /// the store holds before that.
    pub fn run<P, R, M>(&self, world: &mut World<P, R, M>, cmd: &mut CommandBuffer<M>)
        ensures
            final(cmd)@.len() >= old(cmd)@.len(),
            final(cmd)@.take(old(cmd)@.len() as int) == old(cmd)@,
            flushed(final(world)@, final(cmd)@.skip(old(cmd)@.len() as int)) == synced(
                old(world)@,
            ),
            final(world)@.len() == old(world)@.len(),
            forall|j: int|
                0 <= j < old(world)@.len() ==> #[trigger] final(world)@.entities[j]
                    == edited_entity(old(world)@, Entity { id: j as usize }),
            in_sync(old(world)@) ==> final(cmd)@ == old(cmd)@ && final(world)@ == old(world)@,
            acts_as(final(cmd)@.skip(old(cmd)@.len() as int), deferred_by_sync(old(world)@)),
    {
        broadcast use vstd::std_specs::hash::group_hash_axioms;

        let ghost w0 = world@;
        let ghost cmd0 = cmd@;
        let n = world.len();
        let mut entities_to_remove: Vec<Entity> = Vec::new();
        let mut children_to_insert: HashMap<usize, Children> = HashMap::new();
        let pending = reconcile(world, cmd, &mut entities_to_remove, &mut children_to_insert);
        let ghost w1 = world@;
        let ghost staging = children_to_insert@;
        let ghost condemned = |x: usize| doomed(w0, Entity { id: x });
        proof {
            assert forall|x: usize| #[trigger] below(w1, staging, x) == (match synced_children(
                w0,
                Entity { id: x },
            ) {
                Some(c) => c,
                None => Seq::<usize>::empty(),
            }) by {
                lemma_below_is_synced(w0, w1, staging, x);
            }
            assert forall|k: int| 0 <= k < entities_to_remove@.len() implies condemned(
                #[trigger] entities_to_remove@[k].id,
            ) by {
                assert(entities_to_remove@.contains(entities_to_remove@[k]));
                assert(doomed_within(w0, entities_to_remove@[k], 0));
            }
            assert forall|x: usize, k: int|
                condemned(x) && 0 <= k < below(w1, staging, x).len() implies condemned(
                #[trigger] below(w1, staging, x)[k],
            ) by {
                let c = below(w1, staging, x)[k];
                assert(synced_children(w0, Entity { id: x })->0.contains(c));
                lemma_doom_spreads(w0, Entity { id: x }, Entity { id: c });
            }
            assert forall|p: usize| #[trigger] staging.contains_key(p) implies p < w1.len() by {
                lemma_filter_members(entity_ids(w0.len()), joins_into(w0, Entity { id: p }));
                let j = joiners(w0, Entity { id: p });
                assert(j.contains(j[0]));
            }
        }
        let mut removed: HashSet<usize> = HashSet::new();
        let deletions = delete_entities_and_children_recursive(
            cmd,
            world,
            &children_to_insert,
            &mut removed,
            &entities_to_remove,
            Ghost(condemned),
        );
        let ghost gone = removed@;
        proof {
            assert forall|e: Entity| doomed(w0, e) <==> gone.contains(e.id) by {
                if doomed(w0, e) {
                    let m = choose|m: nat| doomed_within(w0, e, m);
                    assert forall|x: Entity| orphaned(w0, x) implies gone.contains(x.id) by {
                        assert(entities_to_remove@.contains(x));
                        let k = choose|k: int|
                            0 <= k < entities_to_remove@.len() && entities_to_remove@[k] == x;
                        assert(gone.contains(entities_to_remove@[k].id));
                    }
                    assert forall|d: Entity, x: Entity|
                        gone.contains(d.id) && #[trigger] heir_of(w0, x, d) implies gone.contains(
                        x.id,
                    ) by {
                        let list = below(w1, staging, d.id);
                        let k = choose|k: int| 0 <= k < list.len() && list[k] == x.id;
                        assert(gone.contains(list[k]));
                    }
                    lemma_doom_is_covered(w0, gone, e, m);
                }
            }
        }
        let ghost mut additions: Seq<CommandView<M>> = Seq::empty();
        let mut k: usize = 0;
        proof {
            assert(cmd@ =~= cmd0 + pending@ + deletions@ + additions);
        }
        while k < n
            invariant
                n == w0.len(),
                k <= n,
                cmd@ == cmd0 + pending@ + deletions@ + additions,
                forall|p: usize|
                    p >= k ==> (#[trigger] children_to_insert@.contains_key(p)
                        <==> staging.contains_key(p)),
                forall|p: usize|
                    p >= k && #[trigger] children_to_insert@.contains_key(p)
                        ==> children_to_insert@[p] == staging[p],
                forall|id: usize, v: EntityView<P, R, M>| #[trigger]
                    enact_all(Some(v), id, additions) == Some(
                        if id < k && staging.contains_key(id) {
                            EntityView { children: Some(staging[id]@), ..v }
                        } else {
                            v
                        },
                    ),
                (forall|p: usize| !#[trigger] staging.contains_key(p)) ==> additions.len() == 0,
            decreases n - k,
        {
            let ghost before = additions;
            match children_to_insert.remove(&k) {
                Some(children) => {
                    proof {
                        additions = additions.push(
                            CommandView::AddChildren(Entity { id: k }, children@),
                        );
                    }
                    cmd.add_children(Entity { id: k }, children);
                },
                None => {},
            }
            proof {
                assert(cmd@ =~= cmd0 + pending@ + deletions@ + additions);
                assert forall|id: usize, v: EntityView<P, R, M>| #[trigger]
                    enact_all(Some(v), id, additions) == Some(
                        if id < k + 1 && staging.contains_key(id) {
                            EntityView { children: Some(staging[id]@), ..v }
                        } else {
                            v
                        },
                    ) by {
                    assert(enact_all(Some(v), id, before) == Some(
                        if id < k && staging.contains_key(id) {
                            EntityView { children: Some(staging[id]@), ..v }
                        } else {
                            v
                        },
                    ));
                    if additions != before {
                        lemma_enact_all_push(Some(v), id, before, additions.last());
                    }
                }
            }
            k += 1;
        }
        proof {
            let delta = pending@ + deletions@ + additions;
            assert(cmd@.take(cmd0.len() as int) =~= cmd0);
            assert(cmd@.skip(cmd0.len() as int) =~= delta);
            assert forall|j: int| 0 <= j < n implies #[trigger] flushed(w1, delta).entities[j]
                == synced(w0).entities[j] by {
                let id = j as usize;
                let e = Entity { id };
                lemma_enact_all_concat(w1.entities[j], id, pending@ + deletions@, additions);
                lemma_enact_all_concat(w1.entities[j], id, pending@, deletions@);
                lemma_enact_all_dead::<P, R, M>(id, delta);
                lemma_enact_all_dead::<P, R, M>(id, additions);
                lemma_enact_all_dead::<P, R, M>(id, deletions@);
                assert(w1.entities[j] == partly(w0, j, n as nat));
                if let Some(v) = w0.entities[j] {
                    let v1 = partly(w0, j, n as nat)->0;
                    let v2 = refreshed(w0, id, n as nat, v1);
                    assert(enact_all(Some(v1), id, pending@) == Some(v2));
                    assert(doomed(w0, e) <==> gone.contains(id));
                    if let Some(c) = v.children {
                        lemma_children_end(w0, e, c);
                    } else {
                        assert(Seq::<usize>::empty() + joiners(w0, e) =~= joiners(w0, e));
                    }
                    if !gone.contains(id) {
                        assert(enact_all(Some(v2), id, deletions@) == Some(v2));
                    }
                }
            }
            assert(flushed(w1, delta).entities =~= synced(w0).entities);
            assert forall|id: usize, v: EntityView<P, R, M>| #[trigger]
                enact_all(Some(v), id, delta) == deferred_by_sync(w0)(id, v) by {
                let e = Entity { id };
                lemma_enact_all_concat(Some(v), id, pending@ + deletions@, additions);
                lemma_enact_all_concat(Some(v), id, pending@, deletions@);
                lemma_enact_all_dead::<P, R, M>(id, additions);
                lemma_enact_all_dead::<P, R, M>(id, deletions@);
                let v2 = refreshed(w0, id, n as nat, v);
                assert(enact_all(Some(v), id, pending@) == Some(v2));
                assert(doomed(w0, e) <==> gone.contains(id));
                assert(enact_all(Some(v2), id, deletions@) == (if gone.contains(id) {
                    None::<EntityView<P, R, M>>
                } else {
                    Some(v2)
                }));
                if !gone.contains(id) {
                    assert(enact_all(Some(v), id, pending@ + deletions@) == Some(v2));
                    let v3 = if id < n && staging.contains_key(id) {
                        EntityView { children: Some(staging[id]@), ..v2 }
                    } else {
                        v2
                    };
                    assert(enact_all(Some(v2), id, additions) == Some(v3));
                    assert(refreshes(w0, e) ==> id < n);
                    assert(staging.contains_key(id) ==> id < n);
                    assert(deferred_by_sync(w0)(id, v)->0 =~= v3);
                } else {
                    assert(enact_all(Some(v), id, pending@ + deletions@) is None);
                }
            }
            assert forall|j: int| 0 <= j < n implies #[trigger] w1.entities[j] == edited_entity(
                w0,
                Entity { id: j as usize },
            ) by {
                assert(w1.entities[j] == partly(w0, j, n as nat));
                if let Some(v) = w0.entities[j] {
                    if let Some(c) = v.children {
                        lemma_children_end(w0, Entity { id: j as usize }, c);
                    }
                }
            }
            if in_sync(w0) {
                lemma_in_sync_is_settled(w0);
                assert(pending@.len() == 0);
                if entities_to_remove@.len() > 0 {
                    assert(entities_to_remove@.contains(entities_to_remove@[0]));
                }
                assert(deletions@.len() == 0);
                assert forall|p: usize| !#[trigger] staging.contains_key(p) by {
                    assert(joiners(w0, Entity { id: p }).len() == 0);
                }
                assert(additions.len() == 0);
                assert(cmd@ =~= cmd0);
                assert forall|j: int| 0 <= j < n implies #[trigger] w1.entities[j]
                    == w0.entities[j] by {
                    assert(w1.entities[j] == edited_entity(w0, Entity { id: j as usize }));
                    assert(w0.get(Entity { id: j as usize }) == w0.entities[j]);
                }
                assert(w1.entities =~= w0.entities);
            }
        }
    }
}

/// The child list that the cascade finds for an entity is the one that the
/// entity has after the synchronization.
proof fn lemma_below_is_synced<P, R, M>(
    w0: WorldView<P, R, M>,
    w1: WorldView<P, R, M>,
    staging: Map<usize, Children>,
    x: usize,
)
    requires
        w1.len() == w0.len(),
        forall|j: int| 0 <= j < w0.len() ==> #[trigger] w1.entities[j] == partly(w0, j, w0.len()),
        forall|p: usize| #[trigger]
            staging.contains_key(p) <==> (w0.children_of(Entity { id: p }) is None && joiners(
                w0,
                Entity { id: p },
            ).len() > 0),
        forall|p: usize| #[trigger]
            staging.contains_key(p) ==> staging[p]@ == joiners(w0, Entity { id: p }),
    ensures
        below(w1, staging, x) == (match synced_children(w0, Entity { id: x }) {
            Some(c) => c,
            None => Seq::<usize>::empty(),
        }),
{
    let e = Entity { id: x };
    if x < w0.len() {
        assert(w1.entities[x as int] == partly(w0, x as int, w0.len()));
        if let Some(v) = w0.entities[x as int] {
            if let Some(c) = v.children {
                lemma_children_end(w0, e, c);
            }
        }
    }
    assert(Seq::<usize>::empty() + joiners(w0, e) =~= joiners(w0, e));
}

} // verus!
