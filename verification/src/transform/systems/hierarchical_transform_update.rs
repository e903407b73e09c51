//! The hierarchical transform update: it carries the world transform of
//! each root down through its child lists.

use vstd::prelude::*;
use crate::ecs::command::{
    acts_as, enact_all, flushed, lemma_enact_all_dead, lemma_enact_all_push, CommandBuffer,
    CommandView,
};
use crate::ecs::entity::Entity;
use crate::ecs::view::{EntityView, WorldView};
use crate::ecs::world::World;
use crate::transform::composition::{
    composed, deferred_by_composition, lemma_within_extend, lemma_within_split, lemma_within_top_passes, lists,
    lists_are_sound, passes_on, reached, starts, within, within_levels,
};
use crate::transform::seq_facts::lemma_distinct_bounded;

verus! {

/// The world transform that is recorded for an entity, if one is.
spec fn lookup<M>(assigned: Map<usize, M>, id: usize) -> Option<M> {
    if assigned.contains_key(id) {
        Some(assigned[id])
    } else {
        None
    }
}

/// What the recorded operations do to every entity: it gets the world
/// transform that is recorded for it, if one is.
spec fn supplies<P, R, M>(pending: Seq<CommandView<M>>, assigned: Map<usize, M>) -> bool {
    forall|id: usize, v: EntityView<P, R, M>| #[trigger]
        enact_all(Some(v), id, pending) == Some(
            match lookup(assigned, id) {
                Some(m) => EntityView { world_transform: Some(m), ..v },
                None => v,
            },
        )
}

/// The world transform that an entity hands down to its children: the one
/// recorded for it or, where none is, the one it has.
spec fn handed_down<P, R, M>(w: WorldView<P, R, M>, assigned: Map<usize, M>, p: Entity) -> Option<
    M,
> {
    match lookup(assigned, p.id) {
        Some(m) => Some(m),
        None => w.world_transform_of(p),
    }
}

/// The world transform recorded for the entity is the product of what its
/// parent hands down and its own transform relative to the parent.
spec fn settled<P, R, M, F: Fn(&M, &M) -> M>(
    w: WorldView<P, R, M>,
    assigned: Map<usize, M>,
    x: Entity,
    compose: F,
) -> bool {
    &&& assigned.contains_key(x.id)
    &&& w.parent_of(x) is Some
    &&& w.parent_transform_of(x) is Some
    &&& handed_down(w, assigned, w.parent_of(x)->0) is Some
    &&& compose.ensures(
        (&handed_down(w, assigned, w.parent_of(x)->0)->0, &w.parent_transform_of(x)->0),
        assigned[x.id],
    )
}

/// Only entities with a `Parent` have a world transform recorded.
spec fn only_children<P, R, M>(w: WorldView<P, R, M>, assigned: Map<usize, M>) -> bool {
    forall|id: usize| #[trigger] assigned.contains_key(id) ==> w.parent_of(Entity { id }) is Some
}

/// The way that the walk came: live entities, each the `Parent` of the
/// next, from a root down.
spec fn descent<P, R, M>(w: WorldView<P, R, M>, path: Seq<Entity>) -> bool {
    &&& path.len() > 0
    &&& w.parent_of(path[0]) is None
    &&& path.no_duplicates()
    &&& forall|i: int| 0 <= i < path.len() ==> w.alive(#[trigger] path[i])
    &&& forall|i: int| 0 < i < path.len() ==> w.parent_of(#[trigger] path[i]) == Some(path[i - 1])
}

/// The walk has been through the first `k` entities of a child list.
spec fn covered<P, R, M>(w: WorldView<P, R, M>, x: Entity, list: Seq<usize>, k: int) -> bool {
    exists|j: int| 0 <= j < k && j < list.len() && #[trigger] within(w, x, Entity { id: list[j] })
}

/// An entity on the way is not reached from an entity that is off it.
proof fn lemma_within_stays_on_path<P, R, M>(
    w: WorldView<P, R, M>,
    path: Seq<Entity>,
    i: int,
    top: Entity,
    k: nat,
)
    requires
        descent(w, path),
        0 <= i < path.len(),
        within_levels(w, path[i], top, k),
    ensures
        path.contains(top),
    decreases k,
{
    if path[i] != top {
        if i > 0 {
            lemma_within_stays_on_path(w, path, i - 1, top, (k - 1) as nat);
        }
    }
}

/// A way has no more entities than the store has handed out.
proof fn lemma_descent_bounded<P, R, M>(w: WorldView<P, R, M>, path: Seq<Entity>)
    requires
        descent(w, path),
    ensures
        path.len() <= w.len(),
{
    let ids = Seq::new(path.len(), |i: int| path[i].id);
    assert forall|i: int, j: int| 0 <= i < ids.len() && 0 <= j < ids.len() && i != j implies ids[i]
        != ids[j] by {
        assert(path[i] != path[j]);
    }
    assert forall|i: int| 0 <= i < ids.len() implies #[trigger] ids[i] < w.len() by {
        assert(w.alive(path[i]));
    }
    lemma_distinct_bounded(ids, w.len());
}

/// A live entity in the child list of the last entity of a way is not on
/// the way, so the way can go on to it.
proof fn lemma_descent_grows<P, R, M>(w: WorldView<P, R, M>, path: Seq<Entity>, e: Entity)
    requires
        lists_are_sound(w),
        descent(w, path),
        lists(w, path.last(), e),
        w.alive(e),
    ensures
        descent(w, path.push(e)),
        !path.contains(e),
        w.parent_of(e) == Some(path.last()),
{
    assert(w.parent_of(e) == Some(path.last()));
    if path.contains(e) {
        let i = choose|i: int| 0 <= i < path.len() && path[i] == e;
        if i > 0 {
            assert(path[i - 1] == path[path.len() - 1]);
        }
    }
    let longer = path.push(e);
    assert forall|i: int, j: int| 0 <= i < longer.len() && 0 <= j < longer.len() && i != j implies longer[i]
        != longer[j] by {
        if i < path.len() && j < path.len() {
            assert(path[i] != path[j]);
        } else if i < path.len() {
            assert(path.contains(path[i]));
        } else {
            assert(path.contains(path[j]));
        }
    }
}

/// Give the entity its world transform, the product of its parent's and its
/// own transform relative to the parent, and go on to its children.
///
/// An entity without position and rotation is passed over with everything
/// below it, and so is one that lacks the transform relative to its parent.
fn update_world_transform_recursive<P, R, M: Copy, F: Fn(&M, &M) -> M>(
    cmd: &mut CommandBuffer<M>,
    world: &World<P, R, M>,
    parent_world_transform: M,
    entity: Entity,
    compose: &F,
    Ghost(base): Ghost<Seq<CommandView<M>>>,
    Ghost(pending): Ghost<Seq<CommandView<M>>>,
    Ghost(assigned): Ghost<Map<usize, M>>,
    Ghost(path): Ghost<Seq<Entity>>,
) -> (out: Ghost<(Seq<CommandView<M>>, Map<usize, M>)>)
    requires
        forall|a: &M, b: &M| compose.requires((a, b)),
        lists_are_sound(world@),
        old(cmd)@ == base + pending,
        supplies::<P, R, M>(pending, assigned),
        only_children(world@, assigned),
        descent(world@, path),
        lists(world@, path.last(), entity),
        handed_down(world@, assigned, path.last()) == Some(parent_world_transform),
    ensures
        final(cmd)@ == base + out@.0,
        supplies::<P, R, M>(out@.0, out@.1),
        only_children(world@, out@.1),
        forall|x: Entity|
            !within(world@, x, entity) ==> #[trigger] lookup(out@.1, x.id) == lookup(assigned, x.id),
        forall|x: Entity| #[trigger] within(world@, x, entity) ==> settled(world@, out@.1, x, *compose),
    decreases world@.len() - path.len(),
{
    let ghost w = world@;
    proof {
        lemma_descent_bounded(w, path);
    }
    if !world.entity_should_have_transform(entity) {
        proof {
            assert forall|x: Entity| !within(w, x, entity) by {
                if within(w, x, entity) {
                    let k = choose|k: nat| within_levels(w, x, entity, k);
                    lemma_within_top_passes(w, x, entity, k);
                }
            }
        }
        return Ghost((pending, assigned));
    }
    let parent_transform = match world.parent_transform(entity) {
        Some(t) => *t,
        None => {
            proof {
                assert forall|x: Entity| !within(w, x, entity) by {
                    if within(w, x, entity) {
                        let k = choose|k: nat| within_levels(w, x, entity, k);
                        lemma_within_top_passes(w, x, entity, k);
                    }
                }
            }
            return Ghost((pending, assigned));
        },
    };
    let world_transform = compose(&parent_world_transform, &parent_transform);
    cmd.add_world_transform(entity, world_transform);
    let ghost longer = path.push(entity);
    let ghost mut pending_now = pending.push(CommandView::AddWorldTransform(entity, world_transform));
    let ghost mut assigned_now = assigned.insert(entity.id, world_transform);
    proof {
        lemma_descent_grows(w, path, entity);
        lemma_descent_bounded(w, longer);
        assert(cmd@ =~= base + pending_now);
        assert forall|id: usize, v: EntityView<P, R, M>| #[trigger]
            enact_all(Some(v), id, pending_now) == Some(
                match lookup(assigned_now, id) {
                    Some(m) => EntityView { world_transform: Some(m), ..v },
                    None => v,
                },
            ) by {
            lemma_enact_all_push(
                Some(v),
                id,
                pending,
                CommandView::AddWorldTransform(entity, world_transform),
            );
            assert(enact_all(Some(v), id, pending) == Some(
                match lookup(assigned, id) {
                    Some(m) => EntityView { world_transform: Some(m), ..v },
                    None => v,
                },
            ));
        }
        assert(Entity { id: entity.id } == entity);
        assert(within_levels(w, entity, entity, 0));
    }
    match world.children(entity) {
        None => {
            proof {
                assert forall|x: Entity| #[trigger] within(w, x, entity) implies x == entity by {
                    if x != entity {
                        let k = choose|k: nat| within_levels(w, x, entity, k);
                        let c = lemma_within_split(w, x, entity, k);
                    }
                }
                assert(lookup(assigned_now, path.last().id) == lookup(assigned, path.last().id));
            }
        },
        Some(children) => {
            let ghost list = children@;
            let count = children.len();
            let mut k: usize = 0;
            while k < count
                invariant
                    w == world@,
                    list == children@,
                    w.children_of(entity) == Some(list),
                    count == list.len(),
                    k <= count,
                    forall|a: &M, b: &M| compose.requires((a, b)),
                    lists_are_sound(w),
                    descent(w, path),
                    descent(w, longer),
                    longer == path.push(entity),
                    longer.len() <= w.len(),
                    w.alive(entity),
                    passes_on(w, entity),
                    w.parent_of(entity) == Some(path.last()),
                    cmd@ == base + pending_now,
                    supplies::<P, R, M>(pending_now, assigned_now),
                    only_children(w, assigned_now),
                    lookup(assigned_now, entity.id) == Some(world_transform),
                    forall|x: Entity|
                        x != entity && !covered(w, x, list, k as int) ==> #[trigger] lookup(
                            assigned_now,
                            x.id,
                        ) == lookup(assigned, x.id),
                    forall|x: Entity| #[trigger]
                        covered(w, x, list, k as int) ==> settled(w, assigned_now, x, *compose),
                decreases count - k,
            {
                let child = match children.get(k) {
                    Some(child) => child,
                    None => entity,
                };
                let ghost before = assigned_now;
                proof {
                    assert(list.contains(list[k as int]));
                    assert(lists(w, longer.last(), child));
                }
                let out = update_world_transform_recursive(
                    cmd,
                    world,
                    world_transform,
                    child,
                    compose,
                    Ghost(base),
                    Ghost(pending_now),
                    Ghost(assigned_now),
                    Ghost(longer),
                );
                proof {
                    pending_now = out@.0;
                    assigned_now = out@.1;
                    assert forall|x: Entity| longer.contains(x) implies !within(w, x, child) by {
                        if within(w, x, child) {
                            let lv = choose|lv: nat| within_levels(w, x, child, lv);
                            let i = choose|i: int| 0 <= i < longer.len() && longer[i] == x;
                            lemma_within_stays_on_path(w, longer, i, child, lv);
                            lemma_within_top_passes(w, x, child, lv);
                            lemma_descent_grows(w, longer, child);
                        }
                    }
                    assert(longer[longer.len() - 1] == entity);
                    assert(longer.contains(entity));
                    assert(lookup(assigned_now, entity.id) == lookup(before, entity.id));
                    assert forall|x: Entity| #[trigger]
                        covered(w, x, list, k + 1) implies settled(w, assigned_now, x, *compose) by {
                        if !within(w, x, child) {
                            let j = choose|j: int|
                                0 <= j < k + 1 && j < list.len() && #[trigger] within(
                                    w,
                                    x,
                                    Entity { id: list[j] },
                                );
                            assert(j < k);
                            assert(covered(w, x, list, k as int));
                            assert(settled(w, before, x, *compose));
                            let top = Entity { id: list[j] };
                            let lv = choose|lv: nat| within_levels(w, x, top, lv);
                            lemma_within_top_passes(w, x, top, lv);
                            let p = w.parent_of(x)->0;
                            assert(lists(w, p, x)) by {
                                if x == top {
                                    assert(list.contains(list[j]));
                                    assert(lists(w, entity, x));
                                }
                            }
                            if within(w, p, child) {
                                let lp = choose|lp: nat| within_levels(w, p, child, lp);
                                assert(within_levels(w, x, child, lp + 1));
                            }
                            assert(lookup(assigned_now, p.id) == lookup(before, p.id));
                            assert(lookup(assigned_now, x.id) == lookup(before, x.id));
                        }
                    }
                    assert forall|x: Entity|
                        x != entity && !covered(w, x, list, k + 1) implies #[trigger] lookup(
                        assigned_now,
                        x.id,
                    ) == lookup(assigned, x.id) by {
                        assert(!within(w, x, child));
                        assert(!covered(w, x, list, k as int));
                    }
                }
                k += 1;
            }
            proof {
                assert forall|x: Entity| #[trigger] within(w, x, entity) && x != entity implies covered(
                    w,
                    x,
                    list,
                    count as int,
                ) by {
                    let lv = choose|lv: nat| within_levels(w, x, entity, lv);
                    let c = lemma_within_split(w, x, entity, lv);
                    let j = choose|j: int| 0 <= j < list.len() && list[j] == c.id;
                    assert(Entity { id: list[j] } == c);
                }
                assert forall|x: Entity| covered(w, x, list, count as int) implies within(
                    w,
                    x,
                    entity,
                ) by {
                    let j = choose|j: int|
                        0 <= j < count && j < list.len() && #[trigger] within(
                            w,
                            x,
                            Entity { id: list[j] },
                        );
                    let c = Entity { id: list[j] };
                    let lv = choose|lv: nat| within_levels(w, x, c, lv);
                    lemma_within_top_passes(w, x, c, lv);
                    assert(list.contains(list[j]));
                    assert(lists(w, entity, c));
                    lemma_within_extend(w, x, c, entity, lv);
                }
                assert(!covered(w, path.last(), list, count as int)) by {
                    if covered(w, path.last(), list, count as int) {
                        assert(within(w, path.last(), entity));
                        let lv = choose|lv: nat| within_levels(w, path.last(), entity, lv);
                        lemma_within_stays_on_path(w, path, path.len() - 1, entity, lv);
                    }
                }
            }
        },
    }
    proof {
        assert(path.last() != entity);
        assert(lookup(assigned_now, path.last().id) == lookup(assigned, path.last().id));
        assert(settled(w, assigned_now, entity, *compose));
    }
    Ghost((pending_now, assigned_now))
}

/// The update reaches the entity from a root whose identifier is below `i`.
spec fn reached_before<P, R, M>(w: WorldView<P, R, M>, x: Entity, i: int) -> bool {
    exists|c: Entity|
        #[trigger] within(w, x, c) && w.parent_of(c) is Some && starts(w, w.parent_of(c)->0)
            && lists(w, w.parent_of(c)->0, c) && w.parent_of(c)->0.id < i
}

/// An entity that the walk reaches is listed by its parent.
proof fn lemma_reached_is_listed<P, R, M>(w: WorldView<P, R, M>, x: Entity, top: Entity, k: nat)
    requires
        within_levels(w, x, top, k),
        w.parent_of(top) is Some,
        lists(w, w.parent_of(top)->0, top),
    ensures
        passes_on(w, x),
        w.parent_of(x) is Some,
        lists(w, w.parent_of(x)->0, x),
{
}

/// System descriptor for updating the world transforms of the entities in
/// the hierarchy.
#[derive(Clone, Copy, Debug, Default, PartialEq, Eq, Hash)]
pub struct HierarchicalTransformUpdateSystem;

/// Build the system that updates the world transforms of the entities in the
/// hierarchy.
pub fn build_hierarchical_transform_update_system() -> (system:
    HierarchicalTransformUpdateSystem)
    ensures
        system == HierarchicalTransformUpdateSystem,
{
    HierarchicalTransformUpdateSystem
}

impl HierarchicalTransformUpdateSystem {
    /// Carry the world transforms down the hierarchy.
    ///
    /// For every root that has a child list and a world transform, each
    /// child gets the product of the root's world transform and its own
    /// transform relative to the parent, each of its children the product
    /// of that and their own, and so on; `compose` makes the products. A
    /// child without position and rotation, or without a transform relative
    /// to its parent, is passed over with everything below it.
    ///
    /// The new world transforms are recorded in the buffer; the store is
    /// only read. What is stated is the store that flushing the recorded
    /// operations gives. The child lists must be sound, as a
    /// synchronization leaves them: the walk then goes down a tree and ends.
    pub fn run<P, R, M: Copy, F: Fn(&M, &M) -> M>(
        &self,
        world: &World<P, R, M>,
        cmd: &mut CommandBuffer<M>,
        compose: F,
    )
        requires
            forall|a: &M, b: &M| compose.requires((a, b)),
            lists_are_sound(world@),
        ensures
            final(cmd)@.len() >= old(cmd)@.len(),
            final(cmd)@.take(old(cmd)@.len() as int) == old(cmd)@,
            composed(
                world@,
                flushed(world@, final(cmd)@.skip(old(cmd)@.len() as int)),
                compose,
            ),
            acts_as(
                final(cmd)@.skip(old(cmd)@.len() as int),
                deferred_by_composition(
                    world@,
                    flushed(world@, final(cmd)@.skip(old(cmd)@.len() as int)),
                ),
            ),
    {
        let ghost w = world@;
        let ghost cmd0 = cmd@;
        let ghost mut pending: Seq<CommandView<M>> = Seq::empty();
        let ghost mut assigned: Map<usize, M> = Map::empty();
        let n = world.len();
        let mut i: usize = 0;
        proof {
            assert(cmd@ =~= cmd0 + pending);
        }
        while i < n
            invariant
                w == world@,
                n == w.len(),
                i <= n,
                forall|a: &M, b: &M| compose.requires((a, b)),
                lists_are_sound(w),
                cmd@ == cmd0 + pending,
                supplies::<P, R, M>(pending, assigned),
                only_children(w, assigned),
                forall|x: Entity|
                    !reached_before(w, x, i as int) ==> !#[trigger] assigned.contains_key(x.id),
                forall|x: Entity| #[trigger]
                    reached_before(w, x, i as int) ==> settled(w, assigned, x, compose),
            decreases n - i,
        {
            let root = Entity { id: i };
            let ghost mut started = false;
            if world.parent(root).is_none() {
                match world.children(root) {
                    Some(children) => match world.world_transform(root) {
                        Some(root_transform) => {
                            let root_transform = *root_transform;
                            let ghost list = children@;
                            let ghost path = seq![root];
                            let count = children.len();
                            let mut k: usize = 0;
                            proof {
                                started = true;
                                assert(starts(w, root));
                            }
                            while k < count
                                invariant
                                    w == world@,
                                    list == children@,
                                    w.children_of(root) == Some(list),
                                    count == list.len(),
                                    k <= count,
                                    root == (Entity { id: i }),
                                    path == seq![root],
                                    starts(w, root),
                                    w.alive(root),
                                    w.world_transform_of(root) == Some(root_transform),
                                    forall|a: &M, b: &M| compose.requires((a, b)),
                                    lists_are_sound(w),
                                    cmd@ == cmd0 + pending,
                                    supplies::<P, R, M>(pending, assigned),
                                    only_children(w, assigned),
                                    forall|x: Entity|
                                        !(reached_before(w, x, i as int) || covered(
                                            w,
                                            x,
                                            list,
                                            k as int,
                                        )) ==> !#[trigger] assigned.contains_key(x.id),
                                    forall|x: Entity|
                                        #![trigger settled(w, assigned, x, compose)]
                                        (reached_before(w, x, i as int) || covered(
                                            w,
                                            x,
                                            list,
                                            k as int,
                                        )) ==> settled(w, assigned, x, compose),
                                decreases count - k,
                            {
                                let child = match children.get(k) {
                                    Some(child) => child,
                                    None => root,
                                };
                                let ghost before = assigned;
                                proof {
                                    assert(list.contains(list[k as int]));
                                    assert(path.last() == root);
                                    assert(lists(w, path.last(), child));
                                    assert(!assigned.contains_key(root.id));
                                }
                                let out = update_world_transform_recursive(
                                    cmd,
                                    world,
                                    root_transform,
                                    child,
                                    &compose,
                                    Ghost(cmd0),
                                    Ghost(pending),
                                    Ghost(assigned),
                                    Ghost(path),
                                );
                                proof {
                                    pending = out@.0;
                                    assigned = out@.1;
                                    assert forall|x: Entity|
                                        !(reached_before(w, x, i as int) || covered(
                                            w,
                                            x,
                                            list,
                                            k + 1,
                                        )) implies !#[trigger] assigned.contains_key(x.id) by {
                                        assert(!within(w, x, child));
                                        assert(!covered(w, x, list, k as int));
                                        assert(lookup(assigned, x.id) == lookup(before, x.id));
                                    }
                                    assert forall|x: Entity|
                                        #![trigger settled(w, assigned, x, compose)]
                                        (reached_before(w, x, i as int) || covered(
                                            w,
                                            x,
                                            list,
                                            k + 1,
                                        )) implies settled(w, assigned, x, compose) by {
                                        if !within(w, x, child) {
                                            if !reached_before(w, x, i as int) {
                                                let j = choose|j: int|
                                                    0 <= j < k + 1 && j < list.len()
                                                        && #[trigger] within(
                                                        w,
                                                        x,
                                                        Entity { id: list[j] },
                                                    );
                                                assert(covered(w, x, list, k as int));
                                            }
                                            assert(settled(w, before, x, compose));
                                            lemma_settled_is_listed(w, x, i as int, list, k as int);
                                            let p = w.parent_of(x)->0;
                                            if within(w, p, child) {
                                                let lp = choose|lp: nat|
                                                    within_levels(w, p, child, lp);
                                                assert(within_levels(w, x, child, lp + 1));
                                            }
                                            assert(lookup(assigned, p.id) == lookup(before, p.id));
                                            assert(lookup(assigned, x.id) == lookup(before, x.id));
                                        }
                                    }
                                }
                                k += 1;
                            }
                        },
                        None => {},
                    },
                    None => {},
                }
            }
            proof {
                assert forall|x: Entity|
                    !reached_before(w, x, i + 1) implies !#[trigger] assigned.contains_key(x.id) by {
                    if started {
                        let list = w.children_of(root)->0;
                        if covered(w, x, list, list.len() as int) {
                            let j = choose|j: int|
                                0 <= j < list.len() && j < list.len() && #[trigger] within(
                                    w,
                                    x,
                                    Entity { id: list[j] },
                                );
                            let c = Entity { id: list[j] };
                            let lv = choose|lv: nat| within_levels(w, x, c, lv);
                            lemma_within_top_passes(w, x, c, lv);
                            assert(list.contains(list[j]));
                            assert(lists(w, root, c));
                        }
                    }
                    assert(!reached_before(w, x, i as int));
                }
                assert forall|x: Entity| #[trigger] reached_before(w, x, i + 1) implies settled(
                    w,
                    assigned,
                    x,
                    compose,
                ) by {
                    if !reached_before(w, x, i as int) {
                        let c = choose|c: Entity|
                            #[trigger] within(w, x, c) && w.parent_of(c) is Some && starts(
                                w,
                                w.parent_of(c)->0,
                            ) && lists(w, w.parent_of(c)->0, c) && w.parent_of(c)->0.id < i + 1;
                        assert(w.parent_of(c)->0 == root);
                        let list = w.children_of(root)->0;
                        let j = choose|j: int| 0 <= j < list.len() && list[j] == c.id;
                        assert(Entity { id: list[j] } == c);
                        assert(covered(w, x, list, list.len() as int));
                        assert(started);
                    }
                }
            }
            i += 1;
        }
        proof {
            let s = flushed(w, pending);
            assert(cmd@.take(cmd0.len() as int) =~= cmd0);
            assert(cmd@.skip(cmd0.len() as int) =~= pending);
            assert forall|x: Entity| reached(w, x) <==> reached_before(w, x, n as int) by {
                if reached(w, x) {
                    let c = choose|c: Entity|
                        #[trigger] within(w, x, c) && w.parent_of(c) is Some && starts(
                            w,
                            w.parent_of(c)->0,
                        ) && lists(w, w.parent_of(c)->0, c);
                    assert(w.alive(w.parent_of(c)->0));
                }
            }
            assert forall|e: Entity| #[trigger]
                s.get(e) == (match w.get(e) {
                    None => None,
                    Some(v) => Some(
                        match lookup(assigned, e.id) {
                            Some(m) => EntityView { world_transform: Some(m), ..v },
                            None => v,
                        },
                    ),
                }) by {
                lemma_enact_all_dead::<P, R, M>(e.id, pending);
                if e.id < n {
                    assert(s.entities[e.id as int] == enact_all(
                        w.entities[e.id as int],
                        e.id,
                        pending,
                    ));
                }
            }
            assert forall|e: Entity| #[trigger]
                s.get(e) == (match w.get(e) {
                    None => None,
                    Some(v) => Some(EntityView { world_transform: s.world_transform_of(e), ..v }),
                }) by {
                assert(s.get(e) == (match w.get(e) {
                    None => None,
                    Some(v) => Some(
                        match lookup(assigned, e.id) {
                            Some(m) => EntityView { world_transform: Some(m), ..v },
                            None => v,
                        },
                    ),
                }));
            }
            assert forall|e: Entity| !reached(w, e) implies #[trigger] s.world_transform_of(e)
                == w.world_transform_of(e) by {
                assert(!reached_before(w, e, n as int));
                assert(!assigned.contains_key(e.id));
                assert(s.get(e) == w.get(e));
            }
            assert forall|e: Entity| #[trigger] reached(w, e) implies {
                &&& s.world_transform_of(e) is Some
                &&& s.world_transform_of(w.parent_of(e)->0) is Some
                &&& compose.ensures(
                    (&s.world_transform_of(w.parent_of(e)->0)->0, &w.parent_transform_of(e)->0),
                    s.world_transform_of(e)->0,
                )
            } by {
                assert(reached_before(w, e, n as int));
                assert(settled(w, assigned, e, compose));
                let c = choose|c: Entity|
                    #[trigger] within(w, e, c) && w.parent_of(c) is Some && starts(
                        w,
                        w.parent_of(c)->0,
                    ) && lists(w, w.parent_of(c)->0, c);
                let lv = choose|lv: nat| within_levels(w, e, c, lv);
                lemma_reached_is_listed(w, e, c, lv);
                let p = w.parent_of(e)->0;
                assert(w.alive(p));
                assert(w.alive(e));
                assert(s.world_transform_of(p) == handed_down(w, assigned, p));
            }
            assert forall|id: usize, v: EntityView<P, R, M>| #[trigger]
                enact_all(Some(v), id, pending) == deferred_by_composition(w, s)(id, v) by {
                let e = Entity { id };
                assert(reached(w, e) <==> reached_before(w, e, n as int));
                if reached(w, e) {
                    assert(settled(w, assigned, e, compose));
                    let c = choose|c: Entity|
                        #[trigger] within(w, e, c) && w.parent_of(c) is Some && starts(
                            w,
                            w.parent_of(c)->0,
                        ) && lists(w, w.parent_of(c)->0, c);
                    let lv = choose|lv: nat| within_levels(w, e, c, lv);
                    lemma_within_top_passes(w, e, c, lv);
                    assert(w.alive(e));
                    assert(s.get(e)->0.world_transform == Some(assigned[id]));
                } else {
                    assert(!assigned.contains_key(e.id));
                }
            }
        }
    }
}

/// An entity that the update has reached so far is listed by its parent.
proof fn lemma_settled_is_listed<P, R, M>(
    w: WorldView<P, R, M>,
    x: Entity,
    i: int,
    list: Seq<usize>,
    k: int,
)
    requires
        lists_are_sound(w),
        w.children_of(Entity { id: i as usize }) == Some(list),
        0 <= i <= usize::MAX,
        reached_before(w, x, i) || covered(w, x, list, k),
    ensures
        passes_on(w, x),
        w.parent_of(x) is Some,
        lists(w, w.parent_of(x)->0, x),
{
    if reached_before(w, x, i) {
        let c = choose|c: Entity|
            #[trigger] within(w, x, c) && w.parent_of(c) is Some && starts(w, w.parent_of(c)->0)
                && lists(w, w.parent_of(c)->0, c) && w.parent_of(c)->0.id < i;
        let lv = choose|lv: nat| within_levels(w, x, c, lv);
        lemma_reached_is_listed(w, x, c, lv);
    } else {
        let j = choose|j: int|
            0 <= j < k && j < list.len() && #[trigger] within(w, x, Entity { id: list[j] });
        let c = Entity { id: list[j] };
        let lv = choose|lv: nat| within_levels(w, x, c, lv);
        lemma_within_top_passes(w, x, c, lv);
        assert(list.contains(list[j]));
        assert(lists(w, Entity { id: i as usize }, c));
        lemma_reached_is_listed(w, x, c, lv);
    }
}

} // verus!
