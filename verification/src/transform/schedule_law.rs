//! The schedule that the transform bundle lays out, run with its flush,
//! makes one update cycle.

use vstd::prelude::*;
use crate::base::systems::schedule::ScheduleEntry;
use crate::ecs::command::{
    acts_as, enact_all, flushed, lemma_enact_all_concat, lemma_enact_all_dead,
    lemma_flushed_empty, CommandView,
};
use crate::ecs::entity::Entity;
use crate::ecs::view::{EntityView, WorldView};
use crate::ecs::world::consumed;
use crate::transform::composition::{composed, lists_are_sound};
use crate::transform::hierarchy::{deferred_by_sync, edited_entity, synced, synced_entity};
use crate::transform::local::{
    deferred_by_update, lacks, left_in_store, locally_updated, recomputes, target_of, with_target,
    TransformKind,
};
use crate::transform::systems::bundle::{TransformBundle, TransformSystem};
use crate::transform::systems::executor::{executed, scheduled, stage_step, Pending};
use crate::transform::systems::pipeline::{cycle_stages, cycled, updated_locally};

verus! {

/// What an entity holds after the synchronization and the update of the
/// world transforms of the roots, given what it holds after the
/// synchronization alone and what the update made of what it read.
spec fn with_root_update<P, R, M>(
    synced: Option<EntityView<P, R, M>>,
    read: Option<EntityView<P, R, M>>,
    made: Option<EntityView<P, R, M>>,
) -> Option<EntityView<P, R, M>> {
    match synced {
        Some(v) => if read is Some && made is Some && recomputes(read->0, TransformKind::World) {
            Some(
                with_target(
                    consumed(v),
                    TransformKind::World,
                    target_of(made->0, TransformKind::World)->0,
                ),
            )
        } else {
            Some(v)
        },
        None => None,
    }
}

/// The three stages that run before the flush, each on what the stage
/// before left in the store, give together what they give one after the
/// other with a flush behind each.
proof fn lemma_three_stages<P, R, M, FP, FR, FB>(
    w0: WorldView<P, R, M>,
    s1: Pending<P, R, M>,
    s2: Pending<P, R, M>,
    s3: Pending<P, R, M>,
    from_position: FP,
    from_rotation: FR,
    from_both: FB,
) -> (roots_done: WorldView<P, R, M>) where
    FP: Fn(&P) -> M,
    FR: Fn(&R) -> M,
    FB: Fn(&P, &R) -> M,

    requires
        w0.len() <= usize::MAX,
        s1.store.len() == w0.len(),
        s2.store.len() == w0.len(),
        s3.store.len() == w0.len(),
        forall|j: int|
            0 <= j < w0.len() ==> #[trigger] s1.store.entities[j] == edited_entity(
                w0,
                Entity { id: j as usize },
            ),
        acts_as(s1.waiting, deferred_by_sync(w0)),
        s2.waiting.len() >= s1.waiting.len(),
        s2.waiting.take(s1.waiting.len() as int) == s1.waiting,
        updated_locally(
            s1.store,
            flushed(s2.store, s2.waiting.skip(s1.waiting.len() as int)),
            TransformKind::World,
            from_position,
            from_rotation,
            from_both,
        ),
        forall|j: int|
            0 <= j < w0.len() ==> #[trigger] s2.store.entities[j] == left_in_store(
                s1.store.entities[j],
                flushed(s2.store, s2.waiting.skip(s1.waiting.len() as int)).entities[j],
                TransformKind::World,
            ),
        acts_as(
            s2.waiting.skip(s1.waiting.len() as int),
            deferred_by_update(
                s1.store,
                flushed(s2.store, s2.waiting.skip(s1.waiting.len() as int)),
                TransformKind::World,
            ),
        ),
        s3.waiting.len() >= s2.waiting.len(),
        s3.waiting.take(s2.waiting.len() as int) == s2.waiting,
        updated_locally(
            s2.store,
            flushed(s3.store, s3.waiting.skip(s2.waiting.len() as int)),
            TransformKind::Parent,
            from_position,
            from_rotation,
            from_both,
        ),
        forall|j: int|
            0 <= j < w0.len() ==> #[trigger] s3.store.entities[j] == left_in_store(
                s2.store.entities[j],
                flushed(s3.store, s3.waiting.skip(s2.waiting.len() as int)).entities[j],
                TransformKind::Parent,
            ),
        acts_as(
            s3.waiting.skip(s2.waiting.len() as int),
            deferred_by_update(
                s2.store,
                flushed(s3.store, s3.waiting.skip(s2.waiting.len() as int)),
                TransformKind::Parent,
            ),
        ),
    ensures
        updated_locally(
            synced(w0),
            roots_done,
            TransformKind::World,
            from_position,
            from_rotation,
            from_both,
        ),
        updated_locally(
            roots_done,
            flushed(s3.store, s3.waiting),
            TransformKind::Parent,
            from_position,
            from_rotation,
            from_both,
        ),
{
    let n = w0.len();
    let a = s1.waiting;
    let b = s2.waiting.skip(a.len() as int);
    let c = s3.waiting.skip(s2.waiting.len() as int);
    let w1 = s1.store;
    let w2 = s2.store;
    let w3 = s3.store;
    let then2 = flushed(w2, b);
    let then3 = flushed(w3, c);
    let end = flushed(w3, s3.waiting);
    assert(s2.waiting =~= a + b);
    assert(s3.waiting =~= a + b + c);
    let roots_done = WorldView {
        entities: Seq::new(
            n,
            |j: int| with_root_update(synced(w0).entities[j], w1.entities[j], then2.entities[j]),
        ),
    };
    assert forall|j: int| 0 <= j < n implies locally_updated(
        synced(w0).entities[j],
        #[trigger] roots_done.entities[j],
        TransformKind::World,
        from_position,
        from_rotation,
        from_both,
    ) by {
        let e = Entity { id: j as usize };
        assert(synced(w0).entities[j] == synced_entity(w0, e));
        assert(w1.entities[j] == edited_entity(w0, e));
        assert(locally_updated(
            w1.entities[j],
            then2.entities[j],
            TransformKind::World,
            from_position,
            from_rotation,
            from_both,
        ));
    }
    assert forall|j: int| 0 <= j < n implies locally_updated(
        roots_done.entities[j],
        #[trigger] end.entities[j],
        TransformKind::Parent,
        from_position,
        from_rotation,
        from_both,
    ) by {
        let id = j as usize;
        let e = Entity { id };
        assert(synced(w0).entities[j] == synced_entity(w0, e));
        assert(w1.entities[j] == edited_entity(w0, e));
        assert(w2.entities[j] == left_in_store(
            w1.entities[j],
            then2.entities[j],
            TransformKind::World,
        ));
        assert(w3.entities[j] == left_in_store(
            w2.entities[j],
            then3.entities[j],
            TransformKind::Parent,
        ));
        assert(locally_updated(
            w1.entities[j],
            then2.entities[j],
            TransformKind::World,
            from_position,
            from_rotation,
            from_both,
        ));
        assert(locally_updated(
            w2.entities[j],
            then3.entities[j],
            TransformKind::Parent,
            from_position,
            from_rotation,
            from_both,
        ));
        assert(end.entities[j] == enact_all(w3.entities[j], id, a + b + c));
        lemma_enact_all_concat(w3.entities[j], id, a + b, c);
        lemma_enact_all_concat(w3.entities[j], id, a, b);
        lemma_enact_all_dead::<P, R, M>(id, a);
        lemma_enact_all_dead::<P, R, M>(id, b);
        lemma_enact_all_dead::<P, R, M>(id, c);
        if let Some(x3) = w3.entities[j] {
            let after_a = enact_all(Some(x3), id, a);
            assert(after_a == deferred_by_sync(w0)(id, x3));
            if let Some(y) = after_a {
                let after_b = enact_all(Some(y), id, b);
                assert(after_b == deferred_by_update(w1, then2, TransformKind::World)(id, y));
                let z = after_b->0;
                let after_c = enact_all(Some(z), id, c);
                assert(after_c == deferred_by_update(w2, then3, TransformKind::Parent)(id, z));
                assert(end.entities[j] == after_c);
                let v1 = w1.entities[j]->0;
                let v2 = w2.entities[j]->0;
                let vs = synced(w0).entities[j]->0;
                assert(recomputes(v1, TransformKind::World) ==> !recomputes(
                    v2,
                    TransformKind::Parent,
                ));
                if recomputes(v2, TransformKind::Parent) {
                    assert(roots_done.entities[j] == Some(vs));
                    assert(after_c->0 =~= with_target(
                        consumed(vs),
                        TransformKind::Parent,
                        target_of(then3.entities[j]->0, TransformKind::Parent)->0,
                    ));
                } else {
                    assert(after_c->0 =~= roots_done.entities[j]->0);
                }
            } else {
                assert(end.entities[j] is None);
                assert(roots_done.entities[j] is None);
            }
        } else {
            assert(end.entities[j] is None);
            assert(w0.entities[j] is None);
        }
    }
    roots_done
}

/// **The bundle's schedule makes a cycle.** The schedule of a bundle with a
/// flush before its last system, whose end order does not come before its
/// start order, gives what one update cycle gives: the three stages before
/// the flush do not get in each other's way, though what they defer is
/// applied only after all three have run.
pub proof fn lemma_flushing_bundle_makes_a_cycle<P, R, M, FP, FR, FB, F>(
    bundle: TransformBundle,
    start: WorldView<P, R, M>,
    end: WorldView<P, R, M>,
    from_position: FP,
    from_rotation: FR,
    from_both: FB,
    compose: F,
) where FP: Fn(&P) -> M, FR: Fn(&R) -> M, FB: Fn(&P, &R) -> M, F: Fn(&M, &M) -> M
    requires
        bundle.flush_before_end,
        !bundle.end_order.before(bundle.start_order),
        start.len() <= usize::MAX,
        scheduled(
            bundle.laid_out(),
            start,
            end,
            from_position,
            from_rotation,
            from_both,
            compose,
        ),
    ensures
        cycled(start, end, from_position, from_rotation, from_both, compose),
{
    let entries = bundle.laid_out();
    assert(entries.len() == 5);
    let s0 = Pending { store: start, waiting: Seq::<CommandView<M>>::empty() };
    let s5 = choose|last: Pending<P, R, M>|
        #[trigger] executed(
            entries,
            entries.len(),
            s0,
            last,
            from_position,
            from_rotation,
            from_both,
            compose,
        ) && end == flushed(last.store, last.waiting);
    let s4 = lemma_step_back(entries, 5, s0, s5, from_position, from_rotation, from_both, compose);
    let s3 = lemma_step_back(entries, 4, s0, s4, from_position, from_rotation, from_both, compose);
    let s2 = lemma_step_back(entries, 3, s0, s3, from_position, from_rotation, from_both, compose);
    let s1 = lemma_step_back(entries, 2, s0, s2, from_position, from_rotation, from_both, compose);
    let back = lemma_step_back(
        entries,
        1,
        s0,
        s1,
        from_position,
        from_rotation,
        from_both,
        compose,
    );
    assert(back == s0);
    assert(s1.waiting.skip(0) =~= s1.waiting);
    assert(s5.waiting.skip(0) =~= s5.waiting);
    let roots_done = lemma_three_stages(
        start,
        s1,
        s2,
        s3,
        from_position,
        from_rotation,
        from_both,
    );
    let locals_done = s4.store;
    lemma_flushed_empty(locals_done);
    assert(cycle_stages(
        start,
        roots_done,
        locals_done,
        end,
        from_position,
        from_rotation,
        from_both,
        compose,
    ));
}

/// The store and the waiting operations from which the last of the first
/// `n` entries led to `end`.
proof fn lemma_step_back<P, R, M, FP, FR, FB, F>(
    entries: Seq<ScheduleEntry<TransformSystem>>,
    n: nat,
    start: Pending<P, R, M>,
    end: Pending<P, R, M>,
    from_position: FP,
    from_rotation: FR,
    from_both: FB,
    compose: F,
) -> (mid: Pending<P, R, M>) where
    FP: Fn(&P) -> M,
    FR: Fn(&R) -> M,
    FB: Fn(&P, &R) -> M,
    F: Fn(&M, &M) -> M,

    requires
        n > 0,
        executed(entries, n, start, end, from_position, from_rotation, from_both, compose),
    ensures
        executed(
            entries,
            (n - 1) as nat,
            start,
            mid,
            from_position,
            from_rotation,
            from_both,
            compose,
        ),
        stage_step(entries[n - 1], mid, end, from_position, from_rotation, from_both, compose),
{
    choose|mid: Pending<P, R, M>|
        executed(
            entries,
            (n - 1) as nat,
            start,
            mid,
            from_position,
            from_rotation,
            from_both,
            compose,
        ) && #[trigger] stage_step(
            entries[n - 1],
            mid,
            end,
            from_position,
            from_rotation,
            from_both,
            compose,
        )
}

} // verus!
