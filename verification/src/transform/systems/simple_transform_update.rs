//! The local transform updates: they compute the transform of an entity
//! relative to its parent, or to the world for a root, from its position
//! and rotation.

use vstd::prelude::*;
use crate::ecs::command::{
    acts_as, enact_all, flushed, lemma_enact_all_dead, lemma_enact_all_push, CommandBuffer,
    CommandView,
};
use crate::ecs::entity::Entity;
use crate::ecs::view::EntityView;
use crate::ecs::world::{consumed, World};
use crate::transform::local::{
    deferred_by_update, derives, lacks, left_in_store, locally_updated, recomputes, target_of,
    with_target, TransformKind,
};

verus! {

/// A system that updates one kind of transform from the `Position` and
/// `Rotation` components.
#[derive(Clone, Copy, Debug, PartialEq, Eq, Hash)]
pub struct TransformUpdateSystem {
    /// The kind of transform that the system writes.
    pub kind: TransformKind,
}

/// Build the system that updates the transform relative to the parent.
///
/// It considers the entities that have a `Parent`, and adds the transform to
/// those that have a position or a rotation but no such transform yet.
pub fn build_parent_transform_update_system() -> (system: TransformUpdateSystem)
    ensures
        system.kind == TransformKind::Parent,
{
    TransformUpdateSystem { kind: TransformKind::Parent }
}

/// Build the system that updates the transform relative to the world.
///
/// It considers the entities that have no `Parent`, the roots of the
/// hierarchy, and adds the transform to those that have a position or a
/// rotation but no such transform yet.
pub fn build_world_transform_update_system() -> (system: TransformUpdateSystem)
    ensures
        system.kind == TransformKind::World,
{
    TransformUpdateSystem { kind: TransformKind::World }
}

/// What the recorded additions do to an entity: it gets the transform that
/// is recorded for it, if one is.
spec fn supplied<P, R, M>(v: EntityView<P, R, M>, kind: TransformKind, added: Option<M>)
    -> EntityView<P, R, M> {
    match added {
        Some(m) => with_target(v, kind, m),
        None => v,
    }
}

spec fn lookup<M>(additions: Map<usize, M>, id: usize) -> Option<M> {
    if additions.contains_key(id) {
        Some(additions[id])
    } else {
        None
    }
}

impl TransformUpdateSystem {
    /// Update the transforms of the system's kind.
    ///
    /// An entity that has the transform gets it computed anew, in the store,
    /// if its position or rotation was written; an entity that lacks it gets
    /// it through the buffer. The matrix is made by `from_position` of an
    /// entity that has no rotation, by `from_rotation` of one that has no
    /// position, and by `from_both` of one that has both. What is stated is
    /// the store that flushing the recorded operations gives.
    pub fn run<P, R, M, FP, FR, FB>(
        &self,
        world: &mut World<P, R, M>,
        cmd: &mut CommandBuffer<M>,
        from_position: FP,
        from_rotation: FR,
        from_both: FB,
    ) where FP: Fn(&P) -> M, FR: Fn(&R) -> M, FB: Fn(&P, &R) -> M
        requires
            forall|p: &P| from_position.requires((p,)),
            forall|r: &R| from_rotation.requires((r,)),
            forall|p: &P, r: &R| from_both.requires((p, r)),
        ensures
            final(cmd)@.len() >= old(cmd)@.len(),
            final(cmd)@.take(old(cmd)@.len() as int) == old(cmd)@,
            flushed(final(world)@, final(cmd)@.skip(old(cmd)@.len() as int)).len() == old(
                world,
            )@.len(),
            forall|j: int|
                0 <= j < old(world)@.len() ==> locally_updated(
                    old(world)@.entities[j],
                    #[trigger] flushed(
                        final(world)@,
                        final(cmd)@.skip(old(cmd)@.len() as int),
                    ).entities[j],
                    self.kind,
                    from_position,
                    from_rotation,
                    from_both,
                ),
            final(world)@.len() == old(world)@.len(),
            forall|j: int|
                0 <= j < old(world)@.len() ==> #[trigger] final(world)@.entities[j]
                    == left_in_store(
                    old(world)@.entities[j],
                    flushed(final(world)@, final(cmd)@.skip(old(cmd)@.len() as int)).entities[j],
                    self.kind,
                ),
            acts_as(
                final(cmd)@.skip(old(cmd)@.len() as int),
                deferred_by_update(
                    old(world)@,
                    flushed(final(world)@, final(cmd)@.skip(old(cmd)@.len() as int)),
                    self.kind,
                ),
            ),
    {
        let ghost w0 = world@;
        let ghost cmd0 = cmd@;
        let ghost mut pending: Seq<CommandView<M>> = Seq::empty();
        let ghost mut additions: Map<usize, M> = Map::empty();
        let kind = self.kind;
        let n = world.len();
        let mut i: usize = 0;
        proof {
            assert(cmd@ =~= cmd0 + pending);
        }
        while i < n
            invariant
                n == w0.len(),
                i <= n,
                world@.len() == n,
                kind == self.kind,
                forall|p: &P| from_position.requires((p,)),
                forall|r: &R| from_rotation.requires((r,)),
                forall|p: &P, r: &R| from_both.requires((p, r)),
                cmd@ == cmd0 + pending,
                forall|j: int| i <= j < n ==> #[trigger] world@.entities[j] == w0.entities[j],
                forall|id: usize| #[trigger] additions.contains_key(id) ==> id < i,
                forall|j: int|
                    0 <= j < i && (#[trigger] w0.entities[j]) is Some && recomputes(
                        w0.entities[j]->0,
                        kind,
                    ) && target_of(w0.entities[j]->0, kind) is None ==> additions.contains_key(
                        j as usize,
                    ),
                forall|id: usize| #[trigger]
                    additions.contains_key(id) ==> w0.entities[id as int] is Some
                        && world@.entities[id as int] == Some(
                        consumed(w0.entities[id as int]->0),
                    ) && recomputes(w0.entities[id as int]->0, kind) && target_of(
                        w0.entities[id as int]->0,
                        kind,
                    ) is None,
                forall|id: usize, v: EntityView<P, R, M>| #[trigger]
                    enact_all(Some(v), id, pending) == Some(
                        supplied(v, kind, lookup(additions, id)),
                    ),
                forall|j: int|
                    0 <= j < i ==> match #[trigger] world@.entities[j] {
                        Some(v1) => locally_updated(
                            w0.entities[j],
                            Some(supplied(v1, kind, lookup(additions, j as usize))),
                            kind,
                            from_position,
                            from_rotation,
                            from_both,
                        ),
                        None => w0.entities[j] is None,
                    },
            decreases n - i,
        {
            let entity = Entity { id: i };
            let ghost before = world@;
            let ghost recorded = pending;
            let ghost supplied_so_far = additions;
            assert(world@.entities[i as int] == w0.entities[i as int]);
            if world.is_alive(entity) {
                let has_parent = world.parent(entity).is_some();
                let considered = match kind {
                    TransformKind::Parent => has_parent,
                    TransformKind::World => !has_parent,
                };
                if considered {
                    let has_target = match kind {
                        TransformKind::Parent => world.parent_transform(entity).is_some(),
                        TransformKind::World => world.world_transform(entity).is_some(),
                    };
                    let changed = world.is_position_changed(entity) || world.is_rotation_changed(
                        entity,
                    );
                    if !has_target || changed {
                        let computed: Option<M> = match (
                            world.position(entity),
                            world.rotation(entity),
                        ) {
                            (Some(p), None) => Some(from_position(p)),
                            (None, Some(r)) => Some(from_rotation(r)),
                            (Some(p), Some(r)) => Some(from_both(p, r)),
                            (None, None) => None,
                        };
                        if let Some(m) = computed {
                            let ghost made = m;
                            assert(derives(
                                from_position,
                                from_rotation,
                                from_both,
                                w0.entities[i as int]->0,
                                made,
                            ));
                            if has_target {
                                match kind {
                                    TransformKind::Parent => {
                                        world.set_parent_transform(entity, m);
                                    },
                                    TransformKind::World => {
                                        world.set_world_transform(entity, m);
                                    },
                                }
                            } else {
                                match kind {
                                    TransformKind::Parent => {
                                        cmd.add_parent_transform(entity, m);
                                        proof {
                                            pending = pending.push(
                                                CommandView::AddParentTransform(entity, made),
                                            );
                                        }
                                    },
                                    TransformKind::World => {
                                        cmd.add_world_transform(entity, m);
                                        proof {
                                            pending = pending.push(
                                                CommandView::AddWorldTransform(entity, made),
                                            );
                                        }
                                    },
                                }
                                proof {
                                    additions = additions.insert(i, made);
                                }
                            }
                            world.acknowledge_transform_inputs(entity);
                        }
                    }
                }
            }
            proof {
                assert(cmd@ =~= cmd0 + pending);
                assert forall|id: usize, v: EntityView<P, R, M>| #[trigger]
                    enact_all(Some(v), id, pending) == Some(
                        supplied(v, kind, lookup(additions, id)),
                    ) by {
                    assert(enact_all(Some(v), id, recorded) == Some(
                        supplied(v, kind, lookup(supplied_so_far, id)),
                    ));
                    if pending != recorded {
                        lemma_enact_all_push(Some(v), id, recorded, pending.last());
                    }
                }
                assert forall|j: int| 0 <= j < i + 1 implies match #[trigger] world@.entities[j] {
                    Some(v1) => locally_updated(
                        w0.entities[j],
                        Some(supplied(v1, kind, lookup(additions, j as usize))),
                        kind,
                        from_position,
                        from_rotation,
                        from_both,
                    ),
                    None => w0.entities[j] is None,
                } by {
                    if j < i {
                        assert(world@.entities[j] == before.entities[j]);
                        assert(lookup(additions, j as usize) == lookup(
                            supplied_so_far,
                            j as usize,
                        ));
                    }
                }
            }
            i += 1;
        }
        proof {
            assert(cmd@.take(cmd0.len() as int) =~= cmd0);
            assert(cmd@.skip(cmd0.len() as int) =~= pending);
            assert forall|j: int| 0 <= j < n implies locally_updated(
                w0.entities[j],
                #[trigger] flushed(world@, pending).entities[j],
                kind,
                from_position,
                from_rotation,
                from_both,
            ) by {
                lemma_enact_all_dead::<P, R, M>(j as usize, pending);
                assert(flushed(world@, pending).entities[j] == enact_all(
                    world@.entities[j],
                    j as usize,
                    pending,
                ));
            }
            assert forall|j: int| 0 <= j < n implies #[trigger] world@.entities[j]
                == left_in_store(w0.entities[j], flushed(world@, pending).entities[j], kind) by {
                lemma_enact_all_dead::<P, R, M>(j as usize, pending);
                assert(flushed(world@, pending).entities[j] == enact_all(
                    world@.entities[j],
                    j as usize,
                    pending,
                ));
                assert(locally_updated(
                    w0.entities[j],
                    flushed(world@, pending).entities[j],
                    kind,
                    from_position,
                    from_rotation,
                    from_both,
                ));
                if !additions.contains_key(j as usize) {
                    assert(lookup(additions, j as usize) is None);
                }
            }
            let after = flushed(world@, pending);
            assert forall|id: usize, v: EntityView<P, R, M>| #[trigger]
                enact_all(Some(v), id, pending) == deferred_by_update(w0, after, kind)(id, v) by {
                assert(enact_all(Some(v), id, pending) == Some(
                    supplied(v, kind, lookup(additions, id)),
                ));
                if additions.contains_key(id) {
                    assert(id < n);
                    assert(after.entities[id as int] == enact_all(
                        world@.entities[id as int],
                        id,
                        pending,
                    ));
                    assert(enact_all(world@.entities[id as int], id, pending) == Some(
                        supplied(world@.entities[id as int]->0, kind, lookup(additions, id)),
                    ));
                } else if id < n {
                    assert(!lacks(w0.entities[id as int], kind));
                }
            }
        }
    }
}

} // verus!
