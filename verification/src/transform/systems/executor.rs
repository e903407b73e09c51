//! Running a schedule of the transform and hierarchy systems: the systems
//! record into one buffer, which is flushed where the schedule says so and
//! at the end.

use vstd::prelude::*;
use crate::base::systems::schedule::ScheduleEntry;
use crate::ecs::command::{acts_as, flushed, CommandBuffer, CommandView};
use crate::ecs::entity::Entity;
use crate::ecs::view::WorldView;
use crate::ecs::world::World;
use crate::transform::composition::{composed, deferred_by_composition, lists_are_sound};
use crate::transform::hierarchy::{deferred_by_sync, edited_entity, synced};
use crate::transform::local::{deferred_by_update, left_in_store};
use crate::transform::systems::bundle::TransformSystem;
use crate::transform::systems::pipeline::{child_lists_are_sound, updated_locally};

verus! {

/// A store together with the operations that wait to be applied to it.
#[verifier::ext_equal]
pub struct Pending<P, R, M> {
    /// What the store holds.
    pub store: WorldView<P, R, M>,
    /// The operations that are recorded and not yet flushed.
    pub waiting: Seq<CommandView<M>>,
}

/// What one entry of a schedule makes of a store and the operations that
/// wait: a flush applies the operations; a system leaves the waiting
/// operations in place and records its own behind them, and what it does to
/// the store and what its operations do is what the system states. The
/// hierarchical transform update does nothing where the child lists are not
/// sound.
pub open spec fn stage_step<P, R, M, FP, FR, FB, F>(
    entry: ScheduleEntry<TransformSystem>,
    before: Pending<P, R, M>,
    after: Pending<P, R, M>,
    from_position: FP,
    from_rotation: FR,
    from_both: FB,
    compose: F,
) -> bool where FP: Fn(&P) -> M, FR: Fn(&R) -> M, FB: Fn(&P, &R) -> M, F: Fn(&M, &M) -> M {
    match entry {
        ScheduleEntry::Flush => {
            &&& after.store == flushed(before.store, before.waiting)
            &&& after.waiting == Seq::<CommandView<M>>::empty()
        },
        ScheduleEntry::System(system) => {
            let recorded = after.waiting.skip(before.waiting.len() as int);
            let then = flushed(after.store, recorded);
            &&& after.waiting.len() >= before.waiting.len()
            &&& after.waiting.take(before.waiting.len() as int) == before.waiting
            &&& after.store.len() == before.store.len()
            &&& match system {
                TransformSystem::HierarchySync(_) => {
                    &&& then == synced(before.store)
                    &&& forall|j: int|
                        0 <= j < before.store.len() ==> #[trigger] after.store.entities[j]
                            == edited_entity(before.store, Entity { id: j as usize })
                    &&& acts_as(recorded, deferred_by_sync(before.store))
                },
                TransformSystem::TransformUpdate(update) => {
                    &&& updated_locally(
                        before.store,
                        then,
                        update.kind,
                        from_position,
                        from_rotation,
                        from_both,
                    )
                    &&& forall|j: int|
                        0 <= j < before.store.len() ==> #[trigger] after.store.entities[j]
                            == left_in_store(
                            before.store.entities[j],
                            then.entities[j],
                            update.kind,
                        )
                    &&& acts_as(recorded, deferred_by_update(before.store, then, update.kind))
                },
                TransformSystem::HierarchicalTransformUpdate(_) => if lists_are_sound(
                    before.store,
                ) {
                    &&& after.store == before.store
                    &&& composed(before.store, then, compose)
                    &&& acts_as(recorded, deferred_by_composition(before.store, then))
                } else {
                    after == before
                },
            }
        },
    }
}

/// The first `n` entries of the schedule lead from `start` to `end`.
pub open spec fn executed<P, R, M, FP, FR, FB, F>(
    entries: Seq<ScheduleEntry<TransformSystem>>,
    n: nat,
    start: Pending<P, R, M>,
    end: Pending<P, R, M>,
    from_position: FP,
    from_rotation: FR,
    from_both: FB,
    compose: F,
) -> bool where FP: Fn(&P) -> M, FR: Fn(&R) -> M, FB: Fn(&P, &R) -> M, F: Fn(&M, &M) -> M
    decreases n,
{
    if n == 0 {
        end == start
    } else {
        exists|mid: Pending<P, R, M>|
            executed(
                entries,
                (n - 1) as nat,
                start,
                mid,
                from_position,
                from_rotation,
                from_both,
                compose,
            ) && #[trigger] stage_step(
                entries[n - 1],
                mid,
                end,
                from_position,
                from_rotation,
                from_both,
                compose,
            )
    }
}

/// The store `end` is what the schedule makes of the store `start`: the
/// entries lead from `start`, with nothing waiting, to a store and waiting
/// operations whose flush gives `end`.
pub open spec fn scheduled<P, R, M, FP, FR, FB, F>(
    entries: Seq<ScheduleEntry<TransformSystem>>,
    start: WorldView<P, R, M>,
    end: WorldView<P, R, M>,
    from_position: FP,
    from_rotation: FR,
    from_both: FB,
    compose: F,
) -> bool where FP: Fn(&P) -> M, FR: Fn(&R) -> M, FB: Fn(&P, &R) -> M, F: Fn(&M, &M) -> M {
    exists|last: Pending<P, R, M>|
        #[trigger] executed(
            entries,
            entries.len(),
            Pending { store: start, waiting: Seq::empty() },
            last,
            from_position,
            from_rotation,
            from_both,
            compose,
        ) && end == flushed(last.store, last.waiting)
}

/// Run the schedule on the store: each system in its turn, all recording
/// into one buffer, which is flushed at every flush entry and once more at
/// the end.
///
/// The hierarchical transform update goes down the child lists, which ends
/// only where they are sound; where they are not, it is left out.
pub fn execute<P, R, M: Copy, FP, FR, FB, F>(
    schedule: &Vec<ScheduleEntry<TransformSystem>>,
    world: &mut World<P, R, M>,
    from_position: FP,
    from_rotation: FR,
    from_both: FB,
    compose: F,
) where FP: Fn(&P) -> M, FR: Fn(&R) -> M, FB: Fn(&P, &R) -> M, F: Fn(&M, &M) -> M
    requires
        forall|p: &P| from_position.requires((p,)),
        forall|r: &R| from_rotation.requires((r,)),
        forall|p: &P, r: &R| from_both.requires((p, r)),
        forall|a: &M, b: &M| compose.requires((a, b)),
    ensures
        scheduled(
            schedule@,
            old(world)@,
            final(world)@,
            from_position,
            from_rotation,
            from_both,
            compose,
        ),
{
    let ghost start = Pending { store: world@, waiting: Seq::<CommandView<M>>::empty() };
    let mut cmd: CommandBuffer<M> = CommandBuffer::new();
    let mut i: usize = 0;
    while i < schedule.len()
        invariant
            i <= schedule@.len(),
            forall|p: &P| from_position.requires((p,)),
            forall|r: &R| from_rotation.requires((r,)),
            forall|p: &P, r: &R| from_both.requires((p, r)),
            forall|a: &M, b: &M| compose.requires((a, b)),
            executed(
                schedule@,
                i as nat,
                start,
                Pending { store: world@, waiting: cmd@ },
                from_position,
                from_rotation,
                from_both,
                compose,
            ),
        decreases schedule@.len() - i,
    {
        let ghost mid = Pending { store: world@, waiting: cmd@ };
        match &schedule[i] {
            ScheduleEntry::Flush => {
                cmd.write(world);
            },
            ScheduleEntry::System(TransformSystem::HierarchySync(system)) => {
                system.run(world, &mut cmd);
            },
            ScheduleEntry::System(TransformSystem::TransformUpdate(system)) => {
                system.run(world, &mut cmd, &from_position, &from_rotation, &from_both);
            },
            ScheduleEntry::System(TransformSystem::HierarchicalTransformUpdate(system)) => {
                if child_lists_are_sound(world) {
                    system.run(world, &mut cmd, &compose);
                }
            },
        }
        proof {
            let end = Pending { store: world@, waiting: cmd@ };
            if schedule@[i as int] is System {
                assert(cmd@.take(mid.waiting.len() as int) =~= mid.waiting);
            }
            assert(executed(
                schedule@,
                ((i + 1) - 1) as nat,
                start,
                mid,
                from_position,
                from_rotation,
                from_both,
                compose,
            ));
            assert(stage_step(
                schedule@[(i + 1) - 1],
                mid,
                end,
                from_position,
                from_rotation,
                from_both,
                compose,
            ));
            assert(executed(
                schedule@,
                (i + 1) as nat,
                start,
                end,
                from_position,
                from_rotation,
                from_both,
                compose,
            ));
        }
        i += 1;
    }
    let ghost last = Pending { store: world@, waiting: cmd@ };
    cmd.write(world);
    assert(executed(
        schedule@,
        schedule@.len(),
        start,
        last,
        from_position,
        from_rotation,
        from_both,
        compose,
    ) && world@ == flushed(last.store, last.waiting));
}

} // verus!
