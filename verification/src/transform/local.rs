//! What a local transform update does, stated over the content of the store.

use vstd::prelude::*;
use crate::ecs::view::{EntityView, WorldView};
use crate::ecs::world::consumed;

verus! {

/// Which transform a local update writes, and with it whose: the transform
/// relative to the parent of the entities that have a `Parent`, or the
/// transform relative to the world of those that have none.
#[derive(Clone, Copy, Debug, PartialEq, Eq, Structural, Hash)]
pub enum TransformKind {
    /// The transform relative to the parent.
    Parent,
    /// The transform relative to the world.
    World,
}

/// The transform of the given kind that the entity has.
pub open spec fn target_of<P, R, M>(v: EntityView<P, R, M>, kind: TransformKind) -> Option<M> {
    match kind {
        TransformKind::Parent => v.parent_transform,
        TransformKind::World => v.world_transform,
    }
}

/// The entity with its transform of the given kind replaced.
pub open spec fn with_target<P, R, M>(v: EntityView<P, R, M>, kind: TransformKind, m: M)
    -> EntityView<P, R, M> {
    match kind {
        TransformKind::Parent => EntityView { parent_transform: Some(m), ..v },
        TransformKind::World => EntityView { world_transform: Some(m), ..v },
    }
}

/// Whether an update of the given kind considers the entity at all.
pub open spec fn qualifies<P, R, M>(v: EntityView<P, R, M>, kind: TransformKind) -> bool {
    match kind {
        TransformKind::Parent => v.parent is Some,
        TransformKind::World => v.parent is None,
    }
}

/// Whether the position or the rotation of the entity was written since a
/// local update last consumed them.
pub open spec fn inputs_changed<P, R, M>(v: EntityView<P, R, M>) -> bool {
    (v.position is Some && v.position->0.changed) || (v.rotation is Some && v.rotation->0.changed)
}

/// Whether an update of the given kind computes the transform of the
/// entity anew: the entity qualifies, has a position or a rotation, and
/// either lacks the transform or had one of the two written.
pub open spec fn recomputes<P, R, M>(v: EntityView<P, R, M>, kind: TransformKind) -> bool {
    qualifies(v, kind) && (v.position is Some || v.rotation is Some) && (target_of(v, kind) is None
        || inputs_changed(v))
}

/// The classes of entities whose transform a local update computes anew.
/// An entity is in at most one of them.
#[derive(Clone, Copy, Debug, PartialEq, Eq, Structural, Hash)]
pub enum UpdateClass {
    /// The entity has the transform and a position that was written, and no
    /// rotation.
    PositionOnly,
    /// The entity has the transform and a rotation that was written, and no
    /// position.
    RotationOnly,
    /// The entity has the transform, a position and a rotation, and one of
    /// the two was written.
    PositionAndRotation,
    /// The entity has a position or a rotation but lacks the transform,
    /// which is added.
    Added,
}

/// The class of the entity in an update of the given kind, if its
/// transform is computed anew.
pub open spec fn update_class<P, R, M>(v: EntityView<P, R, M>, kind: TransformKind) -> Option<
    UpdateClass,
> {
    if !qualifies(v, kind) {
        None
    } else if target_of(v, kind) is None {
        if v.position is Some || v.rotation is Some {
            Some(UpdateClass::Added)
        } else {
            None
        }
    } else if v.position is Some && v.rotation is None && v.position->0.changed {
        Some(UpdateClass::PositionOnly)
    } else if v.rotation is Some && v.position is None && v.rotation->0.changed {
        Some(UpdateClass::RotationOnly)
    } else if v.position is Some && v.rotation is Some && (v.position->0.changed
        || v.rotation->0.changed) {
        Some(UpdateClass::PositionAndRotation)
    } else {
        None
    }
}

/// The transform of an entity is computed anew exactly if the entity is in
/// one of the four classes.
pub proof fn lemma_recomputes_by_class<P, R, M>(v: EntityView<P, R, M>, kind: TransformKind)
    ensures
        recomputes(v, kind) <==> update_class(v, kind) is Some,
{
}

/// The matrix is what the given functions make of the position and the
/// rotation of the entity: of the position alone, of the rotation alone, or
/// of both, whichever the entity has.
pub open spec fn derives<P, R, M, FP, FR, FB>(
    from_position: FP,
    from_rotation: FR,
    from_both: FB,
    v: EntityView<P, R, M>,
    m: M,
) -> bool where FP: Fn(&P) -> M, FR: Fn(&R) -> M, FB: Fn(&P, &R) -> M {
    match (v.position, v.rotation) {
        (Some(p), None) => from_position.ensures((&p.value,), m),
        (None, Some(r)) => from_rotation.ensures((&r.value,), m),
        (Some(p), Some(r)) => from_both.ensures((&p.value, &r.value), m),
        (None, None) => false,
    }
}

/// What a local update leaves of an entity in the store before the deferred
/// operations are applied, given what the entity is once they are: the same,
/// but for an entity that lacked the transform, which still lacks it.
pub open spec fn left_in_store<P, R, M>(
    before: Option<EntityView<P, R, M>>,
    after: Option<EntityView<P, R, M>>,
    kind: TransformKind,
) -> Option<EntityView<P, R, M>> {
    match before {
        Some(v) => if recomputes(v, kind) && target_of(v, kind) is None {
            Some(consumed(v))
        } else {
            after
        },
        None => after,
    }
}

/// Whether the entity gets the transform of the given kind through the
/// buffer: it is to be computed and the entity lacks it.
pub open spec fn lacks<P, R, M>(before: Option<EntityView<P, R, M>>, kind: TransformKind) -> bool {
    before matches Some(v) && recomputes(v, kind) && target_of(v, kind) is None
}

/// What the operations that a local update defers do to an entity,
/// whatever it holds by then: an entity that lacked the transform gets the
/// one that the store `after` has for it; nothing happens to any other.
pub open spec fn deferred_by_update<P, R, M>(
    before: WorldView<P, R, M>,
    after: WorldView<P, R, M>,
    kind: TransformKind,
) -> spec_fn(usize, EntityView<P, R, M>) -> Option<EntityView<P, R, M>> {
    |id: usize, v: EntityView<P, R, M>|
        Some(
            if id < before.len() && lacks(before.entities[id as int], kind) {
                with_target(v, kind, target_of(after.entities[id as int]->0, kind)->0)
            } else {
                v
            },
        )
}

/// How an entity after a local update, with the deferred operations
/// applied, relates to the entity before it: a transform that is computed
/// anew is derived from the position and the rotation, whose changes are
/// then consumed; every other entity is exactly as it was.
pub open spec fn locally_updated<P, R, M, FP, FR, FB>(
    before: Option<EntityView<P, R, M>>,
    after: Option<EntityView<P, R, M>>,
    kind: TransformKind,
    from_position: FP,
    from_rotation: FR,
    from_both: FB,
) -> bool where FP: Fn(&P) -> M, FR: Fn(&R) -> M, FB: Fn(&P, &R) -> M {
    match before {
        None => after is None,
        Some(v) => if recomputes(v, kind) {
            &&& after is Some
            &&& target_of(after->0, kind) is Some
            &&& derives(from_position, from_rotation, from_both, v, target_of(after->0, kind)->0)
            &&& after->0 == with_target(consumed(v), kind, target_of(after->0, kind)->0)
        } else {
            after == Some(v)
        },
    }
}

} // verus!
