//! The bundle that puts the four transform and hierarchy systems into a
//! schedule in the order that they need.

use vstd::prelude::*;
use crate::base::systems::order::SystemOrder;
use crate::base::systems::order::lemma_order_is_total;
use crate::base::systems::schedule::{
    ascending, entries_at, flattened, lemma_entries_at, picked, ScheduleBuilder, ScheduleEntry,
    SystemBundle,
};
use crate::transform::local::TransformKind;
use crate::transform::systems::hierarchical_transform_update::{
    build_hierarchical_transform_update_system, HierarchicalTransformUpdateSystem,
};
use crate::transform::systems::hierarchy_sync::{build_hierarchy_sync_system, HierarchySyncSystem};
use crate::transform::systems::simple_transform_update::{
    build_parent_transform_update_system, build_world_transform_update_system,
    TransformUpdateSystem,
};

verus! {

/// One of the systems that keep the hierarchy and the transforms up to date.
#[derive(Clone, Copy, Debug)]
pub enum TransformSystem {
    /// The hierarchy synchronizer.
    HierarchySync(HierarchySyncSystem),
    /// A local transform update.
    TransformUpdate(TransformUpdateSystem),
    /// The hierarchical transform update.
    HierarchicalTransformUpdate(HierarchicalTransformUpdateSystem),
}

/// System bundle that adds the transform and hierarchy systems.
#[derive(Clone, Copy, Debug, PartialEq, Eq)]
pub struct TransformBundle {
    /// The order for the first three systems.
    pub start_order: SystemOrder,
    /// The order for the last system.
    pub end_order: SystemOrder,
    /// Whether to add a flush command right before the last system.
    pub flush_before_end: bool,
}

impl TransformBundle {
    /// What the bundle adds to a schedule: at the start order the hierarchy
    /// synchronizer, the world transform update and the parent transform
    /// update; at the end order a flush, if the bundle is to add one, and
    /// the hierarchical transform update.
    pub open spec fn entries(self) -> Seq<(SystemOrder, ScheduleEntry<TransformSystem>)> {
        let first = seq![
            (
                self.start_order,
                ScheduleEntry::System(TransformSystem::HierarchySync(HierarchySyncSystem)),
            ),
            (
                self.start_order,
                ScheduleEntry::System(
                    TransformSystem::TransformUpdate(
                        TransformUpdateSystem { kind: TransformKind::World },
                    ),
                ),
            ),
            (
                self.start_order,
                ScheduleEntry::System(
                    TransformSystem::TransformUpdate(
                        TransformUpdateSystem { kind: TransformKind::Parent },
                    ),
                ),
            ),
        ];
        let last = seq![
            (
                self.end_order,
                ScheduleEntry::System(
                    TransformSystem::HierarchicalTransformUpdate(HierarchicalTransformUpdateSystem),
                ),
            ),
        ];
        if self.flush_before_end {
            first + seq![(self.end_order, ScheduleEntry::<TransformSystem>::Flush)] + last
        } else {
            first + last
        }
    }

    /// The three stages that may run in any order, in the sequence in which
    /// the bundle adds them.
    pub open spec fn front() -> Seq<ScheduleEntry<TransformSystem>> {
        seq![
            ScheduleEntry::System(TransformSystem::HierarchySync(HierarchySyncSystem)),
            ScheduleEntry::System(
                TransformSystem::TransformUpdate(
                    TransformUpdateSystem { kind: TransformKind::World },
                ),
            ),
            ScheduleEntry::System(
                TransformSystem::TransformUpdate(
                    TransformUpdateSystem { kind: TransformKind::Parent },
                ),
            ),
        ]
    }

    /// The stage that needs what the three have left, behind the flush that
    /// the bundle adds if it is to.
    pub open spec fn back(self) -> Seq<ScheduleEntry<TransformSystem>> {
        let last = seq![
            ScheduleEntry::System(
                TransformSystem::HierarchicalTransformUpdate(HierarchicalTransformUpdateSystem),
            ),
        ];
        if self.flush_before_end {
            seq![ScheduleEntry::<TransformSystem>::Flush] + last
        } else {
            last
        }
    }

    /// The schedule of the bundle alone: the three stages and then the
    /// last one, unless the end order comes before the start order, which
    /// puts the last stage first.
    pub open spec fn laid_out(self) -> Seq<ScheduleEntry<TransformSystem>> {
        if self.end_order.before(self.start_order) {
            self.back() + Self::front()
        } else {
            Self::front() + self.back()
        }
    }

    /// Lay out the schedule that holds the systems of the bundle and
    /// nothing else.
    pub fn into_schedule(self) -> (schedule: Vec<ScheduleEntry<TransformSystem>>)
        ensures
            schedule@ == self.laid_out(),
    {
        let mut builder = ScheduleBuilder::new();
        let ghost desc = self.entries();
        self.build_systems(&mut builder);
        assert(builder@ =~= desc);
        let data = builder.into_data();
        proof {
            self.lemma_laid_out(data@);
        }
        data.into_schedule()
    }

    /// Groups in ascending order that hold what the bundle adds, each entry
    /// under its order, are the schedule of the bundle.
    proof fn lemma_laid_out(self, groups: Seq<(SystemOrder, Seq<ScheduleEntry<TransformSystem>>)>)
        requires
            ascending(groups),
            forall|o: SystemOrder| #[trigger] entries_at(groups, o) == picked(self.entries(), o),
        ensures
            flattened(groups) == self.laid_out(),
    {
        let desc = self.entries();
        let start = self.start_order;
        let end = self.end_order;
        reveal_with_fuel(picked, 6);
        reveal_with_fuel(flattened, 3);
        assert forall|a: int, b: int| 0 <= a < b < groups.len() implies (#[trigger] groups[a]).0 != (
        #[trigger] groups[b]).0 by {
            lemma_order_is_total(groups[a].0, groups[b].0, groups[b].0);
        }
        lemma_entries_at(groups, start);
        lemma_entries_at(groups, end);
        assert forall|i: int| 0 <= i < groups.len() implies (#[trigger] groups[i]).0 == start
            || groups[i].0 == end by {
            lemma_entries_at(groups, groups[i].0);
            assert(picked(desc, groups[i].0).len() > 0);
        }
        lemma_order_is_total(start, end, start);
        if start == end {
            assert(picked(desc, start) =~= Self::front() + self.back());
            assert(groups.len() == 1) by {
                if groups.len() == 0 {
                    assert(entries_at(groups, start).len() == 0);
                }
                if groups.len() > 1 {
                    assert(groups[0].0 == groups[1].0);
                }
            }
            assert(groups.drop_last() =~= Seq::empty());
            assert(flattened(groups) =~= groups[0].1);
        } else {
            assert(picked(desc, start) =~= Self::front());
            assert(picked(desc, end) =~= self.back());
            assert(groups.len() == 2) by {
                if forall|i: int| 0 <= i < groups.len() ==> (#[trigger] groups[i]).0 != start {
                    assert(entries_at(groups, start).len() == 0);
                }
                if forall|i: int| 0 <= i < groups.len() ==> (#[trigger] groups[i]).0 != end {
                    assert(entries_at(groups, end).len() == 0);
                }
                if groups.len() > 2 {
                    assert(groups[0].0 == groups[1].0 || groups[0].0 == groups[2].0 || groups[1].0
                        == groups[2].0);
                }
                if groups.len() == 1 {
                    assert(groups[0].0 == start || groups[0].0 == end);
                }
            }
            assert(groups[0].0.before(groups[1].0));
            assert(groups.drop_last().drop_last() =~= Seq::empty());
            assert(groups.drop_last()[0] == groups[0]);
            assert(flattened(groups) =~= groups[0].1 + groups[1].1);
            lemma_order_is_total(groups[0].0, groups[1].0, groups[0].0);
        }
    }

    /// Create a new instance with the given system execution order.
    pub fn new(start_order: SystemOrder) -> (b: Self)
        ensures
            b == (TransformBundle { start_order, end_order: start_order, flush_before_end: false }),
    {
        TransformBundle { start_order, end_order: start_order, flush_before_end: false }
    }

    /// Create a new instance with the given system execution order with
    /// automatic flushing.
    pub fn new_flush(start_order: SystemOrder) -> (b: Self)
        ensures
            b == (TransformBundle { start_order, end_order: start_order, flush_before_end: true }),
    {
        TransformBundle { start_order, end_order: start_order, flush_before_end: true }
    }

    /// Chain method to construct the bundle; sets the order of the first
    /// three systems.
    pub fn with_start_order(self, start_order: SystemOrder) -> (b: Self)
        ensures
            b == (TransformBundle { start_order, ..self }),
    {
        TransformBundle { start_order, ..self }
    }

    /// Chain method to construct the bundle; sets the order of the last
    /// system.
    pub fn with_end_order(self, end_order: SystemOrder) -> (b: Self)
        ensures
            b == (TransformBundle { end_order, ..self }),
    {
        TransformBundle { end_order, ..self }
    }

    /// Chain method to construct the bundle; add a flush command before the
    /// last system.
    pub fn with_flush(self) -> (b: Self)
        ensures
            b == (TransformBundle { flush_before_end: true, ..self }),
    {
        TransformBundle { flush_before_end: true, ..self }
    }

    /// Chain method to construct the bundle; do not add a flush command
    /// before the last system.
    pub fn without_flush(self) -> (b: Self)
        ensures
            b == (TransformBundle { flush_before_end: false, ..self }),
    {
        TransformBundle { flush_before_end: false, ..self }
    }
}

impl SystemBundle<TransformSystem> for TransformBundle {
    /// Add the systems to the builder: the three stages that may run in any
    /// order at the start order, then at the end order a flush, if the
    /// bundle is to add one, and the stage that needs what the three have
    /// left.
    fn build_systems(self, builder: &mut ScheduleBuilder<TransformSystem>)
        ensures
            final(builder)@ == old(builder)@ + self.entries(),
    {
        builder.add_system(
            self.start_order,
            TransformSystem::HierarchySync(build_hierarchy_sync_system()),
        );
        builder.add_system(
            self.start_order,
            TransformSystem::TransformUpdate(build_world_transform_update_system()),
        );
        builder.add_system(
            self.start_order,
            TransformSystem::TransformUpdate(build_parent_transform_update_system()),
        );
        if self.flush_before_end {
            builder.add_flush(self.end_order);
        }
        builder.add_system(
            self.end_order,
            TransformSystem::HierarchicalTransformUpdate(
                build_hierarchical_transform_update_system(),
            ),
        );
        assert(builder@ =~= old(builder)@ + self.entries());
    }
}

} // verus!
