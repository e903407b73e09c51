//! One update cycle as a single unit: the stages in the order that they
//! need, each followed by a flush of what it has deferred.

use vstd::prelude::*;
use crate::ecs::entity::Entity;
use crate::ecs::view::WorldView;
use crate::ecs::world::World;
use crate::transform::composition::{composed, lists, lists_are_sound};
use crate::transform::hierarchy::synced;
use crate::transform::local::{locally_updated, TransformKind};
use crate::base::systems::order::{lemma_order_is_total, SystemOrder};
use crate::transform::schedule_law::lemma_flushing_bundle_makes_a_cycle;
use crate::transform::systems::bundle::TransformBundle;
use crate::transform::systems::executor::execute;

verus! {

/// The store `after` is the store `before` after a local transform update of
/// the given kind with the deferred operations applied.
pub open spec fn updated_locally<P, R, M, FP, FR, FB>(
    before: WorldView<P, R, M>,
    after: WorldView<P, R, M>,
    kind: TransformKind,
    from_position: FP,
    from_rotation: FR,
    from_both: FB,
) -> bool where FP: Fn(&P) -> M, FR: Fn(&R) -> M, FB: Fn(&P, &R) -> M {
    &&& after.len() == before.len()
    &&& forall|j: int|
        0 <= j < before.len() ==> locally_updated(
            before.entities[j],
            #[trigger] after.entities[j],
            kind,
            from_position,
            from_rotation,
            from_both,
        )
}

/// The stores that one update cycle goes through: from `start` the
/// hierarchy is synchronized, then the world transforms of the roots are
/// updated, which gives `roots_done`, then the transforms relative to the
/// parent, which gives `locals_done`, and then the world transforms are
/// carried down the hierarchy, which gives `end`. The last stage is left
/// out where the child lists are not sound.
pub open spec fn cycle_stages<P, R, M, FP, FR, FB, F>(
    start: WorldView<P, R, M>,
    roots_done: WorldView<P, R, M>,
    locals_done: WorldView<P, R, M>,
    end: WorldView<P, R, M>,
    from_position: FP,
    from_rotation: FR,
    from_both: FB,
    compose: F,
) -> bool where FP: Fn(&P) -> M, FR: Fn(&R) -> M, FB: Fn(&P, &R) -> M, F: Fn(&M, &M) -> M {
    &&& updated_locally(
        synced(start),
        roots_done,
        TransformKind::World,
        from_position,
        from_rotation,
        from_both,
    )
    &&& updated_locally(
        roots_done,
        locals_done,
        TransformKind::Parent,
        from_position,
        from_rotation,
        from_both,
    )
    &&& if lists_are_sound(locals_done) {
        composed(locals_done, end, compose)
    } else {
        end == locals_done
    }
}

/// The store `end` is what one update cycle makes of the store `start`.
pub open spec fn cycled<P, R, M, FP, FR, FB, F>(
    start: WorldView<P, R, M>,
    end: WorldView<P, R, M>,
    from_position: FP,
    from_rotation: FR,
    from_both: FB,
    compose: F,
) -> bool where FP: Fn(&P) -> M, FR: Fn(&R) -> M, FB: Fn(&P, &R) -> M, F: Fn(&M, &M) -> M {
    exists|roots_done: WorldView<P, R, M>, locals_done: WorldView<P, R, M>| #[trigger]
        cycle_stages(
            start,
            roots_done,
            locals_done,
            end,
            from_position,
            from_rotation,
            from_both,
            compose,
        )
}

/// Whether every live entity in a child list has the owner of the list as
/// its `Parent`.
pub fn child_lists_are_sound<P, R, M>(world: &World<P, R, M>) -> (sound: bool)
    ensures
        sound == lists_are_sound(world@),
{
    let ghost w = world@;
    let n = world.len();
    let mut i: usize = 0;
    while i < n
        invariant
            w == world@,
            n == w.len(),
            i <= n,
            forall|p: Entity, x: Entity|
                p.id < i && #[trigger] lists(w, p, x) && w.alive(x) ==> w.parent_of(x) == Some(p),
        decreases n - i,
    {
        let owner = Entity { id: i };
        match world.children(owner) {
            Some(children) => {
                let ghost list = children@;
                let count = children.len();
                let mut k: usize = 0;
                while k < count
                    invariant
                        w == world@,
                        list == children@,
                        w.children_of(owner) == Some(list),
                        count == list.len(),
                        k <= count,
                        forall|j: int|
                            0 <= j < k && w.alive(Entity { id: #[trigger] list[j] }) ==> w.parent_of(
                                Entity { id: list[j] },
                            ) == Some(owner),
                    decreases count - k,
                {
                    let child = match children.get(k) {
                        Some(child) => child,
                        None => owner,
                    };
                    if world.is_alive(child) {
                        let attached = match world.parent(child) {
                            Some(parent) => parent.entity().id == owner.id,
                            None => false,
                        };
                        if !attached {
                            proof {
                                assert(list.contains(list[k as int]));
                                assert(lists(w, owner, child));
                            }
                            return false;
                        }
                    }
                    k += 1;
                }
                proof {
                    assert forall|x: Entity| #[trigger] lists(w, owner, x) && w.alive(x) implies w.parent_of(
                        x,
                    ) == Some(owner) by {
                        let j = choose|j: int| 0 <= j < list.len() && list[j] == x.id;
                        assert(Entity { id: list[j] } == x);
                    }
                }
            },
            None => {},
        }
        proof {
            assert forall|p: Entity, x: Entity|
                p.id < i + 1 && #[trigger] lists(w, p, x) && w.alive(x) implies w.parent_of(x)
                == Some(p) by {
                if p.id == i {
                    assert(p == owner);
                }
            }
        }
        i += 1;
    }
    true
}

/// Run one update cycle: synchronize the hierarchy, update the world
/// transforms of the roots and the transforms relative to the parent of the
/// other entities, and carry the world transforms down the hierarchy.
///
/// The cycle is the schedule of the transform bundle with its flush: what
/// the first three stages defer is applied together before the last stage
/// runs, and what that defers at the end. The last stage goes down the
/// child lists, which ends only where they are sound; where they are not,
/// it is left out.
pub fn run_transform_cycle<P, R, M: Copy, FP, FR, FB, F>(
    world: &mut World<P, R, M>,
    from_position: FP,
    from_rotation: FR,
    from_both: FB,
    compose: F,
) where FP: Fn(&P) -> M, FR: Fn(&R) -> M, FB: Fn(&P, &R) -> M, F: Fn(&M, &M) -> M
    requires
        forall|p: &P| from_position.requires((p,)),
        forall|r: &R| from_rotation.requires((r,)),
        forall|p: &P, r: &R| from_both.requires((p, r)),
        forall|a: &M, b: &M| compose.requires((a, b)),
    ensures
        cycled(old(world)@, final(world)@, from_position, from_rotation, from_both, compose),
{
    let bundle = TransformBundle::new_flush(SystemOrder::first());
    let schedule = bundle.into_schedule();
    let _handed_out = world.len();
    let ghost (fp, fr, fb, f) = (from_position, from_rotation, from_both, compose);
    execute(&schedule, world, from_position, from_rotation, from_both, compose);
    proof {
        lemma_order_is_total(bundle.start_order, bundle.end_order, bundle.start_order);
        lemma_flushing_bundle_makes_a_cycle(bundle, old(world)@, world@, fp, fr, fb, f);
    }
}

} // verus!
