//! Building a schedule: systems and flush points, each with an order, laid
//! out in the sequence in which they run.

use vstd::prelude::*;
use crate::base::systems::entry::CmdBufFlush;
use crate::base::systems::order::{lemma_order_is_total, SystemOrder};

verus! {

/// Entry of a system or a flush command in a schedule.
#[derive(Debug)]
pub enum ScheduleEntry<S> {
    /// A system.
    System(S),
    /// Apply the deferred operations that the systems before have recorded.
    Flush,
}

/// The entries of the groups, one group after the other.
pub open spec fn flattened<S>(groups: Seq<(SystemOrder, Seq<ScheduleEntry<S>>)>) -> Seq<
    ScheduleEntry<S>,
>
    decreases groups.len(),
{
    if groups.len() == 0 {
        Seq::empty()
    } else {
        flattened(groups.drop_last()) + groups.last().1
    }
}

/// The entries that the groups hold for the given order, in the sequence in
/// which they were inserted; none if no group has that order.
pub open spec fn entries_at<S>(
    groups: Seq<(SystemOrder, Seq<ScheduleEntry<S>>)>,
    order: SystemOrder,
) -> Seq<ScheduleEntry<S>>
    decreases groups.len(),
{
    if groups.len() == 0 {
        Seq::empty()
    } else if groups.last().0 == order {
        groups.last().1
    } else {
        entries_at(groups.drop_last(), order)
    }
}

/// The groups stand in strictly ascending order, and none is empty.
pub open spec fn ascending<S>(groups: Seq<(SystemOrder, Seq<ScheduleEntry<S>>)>) -> bool {
    &&& forall|i: int, j: int|
        0 <= i < j < groups.len() ==> (#[trigger] groups[i]).0.before((#[trigger] groups[j]).0)
    &&& forall|i: int| 0 <= i < groups.len() ==> (#[trigger] groups[i]).1.len() > 0
}

/// Static data of the order in which the systems will execute: the entries
/// grouped by their order, the groups in ascending order, and within a
/// group the entries in the sequence in which they were inserted.
pub struct ScheduleData<S> {
    groups: Vec<(SystemOrder, Vec<ScheduleEntry<S>>)>,
}

impl<S> ScheduleData<S> {
    /// The groups of entries, each with its order.
    pub closed spec fn view(&self) -> Seq<(SystemOrder, Seq<ScheduleEntry<S>>)> {
        Seq::new(self.groups@.len(), |i: int| (self.groups@[i].0, self.groups@[i].1@))
    }

    /// The data is well formed: the groups stand in strictly ascending
    /// order, and none is empty.
    pub open spec fn wf(&self) -> bool {
        ascending(self@)
    }

    /// Create a new instance with empty data.
    pub fn new() -> (d: Self)
        ensures
            d@ == Seq::<(SystemOrder, Seq<ScheduleEntry<S>>)>::empty(),
            d.wf(),
    {
        let d = ScheduleData { groups: Vec::new() };
        assert(d@ =~= Seq::<(SystemOrder, Seq<ScheduleEntry<S>>)>::empty());
        d
    }

    /// Insert a single entry: behind the entries that have the same order,
    /// in a group of its own if there are none.
    pub fn insert(&mut self, order: SystemOrder, entry: ScheduleEntry<S>)
        requires
            old(self).wf(),
        ensures
            final(self).wf(),
            forall|o: SystemOrder|
                #[trigger] entries_at(final(self)@, o) == (if o == order {
                    entries_at(old(self)@, o).push(entry)
                } else {
                    entries_at(old(self)@, o)
                }),
    {
        let n = self.groups.len();
        let mut i: usize = 0;
        while i < n && self.groups[i].0.precedes(order)
            invariant
                n == self.groups@.len(),
                i <= n,
                *self == *old(self),
                forall|j: int| 0 <= j < i ==> (#[trigger] self@[j]).0.before(order),
            decreases n - i,
        {
            assert(self@[i as int].0 == self.groups@[i as int].0);
            i += 1;
        }
        let ghost before = self@;
        let same = i < n && !order.precedes(self.groups[i].0);
        if same {
            proof {
                assert(before[i as int].0 == self.groups@[i as int].0);
                lemma_order_is_total(order, before[i as int].0, order);
                assert(before[i as int].0 == order);
            }
            self.groups[i].1.push(entry);
            proof {
                let after = self@;
                assert(after =~= before.update(
                    i as int,
                    (order, before[i as int].1.push(entry)),
                ));
                assert forall|a: int, b: int| 0 <= a < b < after.len() implies (
                #[trigger] after[a]).0.before((#[trigger] after[b]).0) by {
                    assert(before[a].0.before(before[b].0));
                }
                assert forall|a: int| 0 <= a < after.len() implies (#[trigger] after[a]).1.len()
                    > 0 by {
                    assert(before[a].1.len() > 0);
                }
                assert forall|o: SystemOrder|
                    #[trigger] entries_at(after, o) == (if o == order {
                        entries_at(before, o).push(entry)
                    } else {
                        entries_at(before, o)
                    }) by {
                    lemma_ascending_is_distinct(before);
                    lemma_ascending_is_distinct(after);
                    lemma_entries_at(before, o);
                    lemma_entries_at(after, o);
                    if o == order {
                        assert(after[i as int].0 == o);
                    } else if exists|j: int| 0 <= j < before.len() && before[j].0 == o {
                        let j = choose|j: int| 0 <= j < before.len() && before[j].0 == o;
                        assert(after[j] == before[j]);
                    } else {
                        assert forall|j: int| 0 <= j < after.len() implies (#[trigger] after[j]).0
                            != o by {
                            assert(before[j].0 != o);
                        }
                    }
                }
            }
        } else {
            let mut group: Vec<ScheduleEntry<S>> = Vec::new();
            group.push(entry);
            self.groups.insert(i, (order, group));
            proof {
                let after = self@;
                assert(after =~= before.insert(i as int, (order, seq![entry])));
                assert forall|j: int| i <= j < before.len() implies order.before(
                    (#[trigger] before[j]).0,
                ) by {
                    assert(before[i as int].0 == old(self).groups@[i as int].0);
                    lemma_order_is_total(order, before[i as int].0, before[j].0);
                    if j > i {
                        assert(before[i as int].0.before(before[j].0));
                    }
                }
                assert forall|a: int, b: int| 0 <= a < b < after.len() implies (
                #[trigger] after[a]).0.before((#[trigger] after[b]).0) by {
                    if b < i {
                        assert(before[a].0.before(before[b].0));
                    } else if b == i {
                        assert(before[a].0.before(order));
                    } else if a < i {
                        assert(before[a].0.before(before[b - 1].0));
                    } else if a == i {
                        assert(order.before(before[b - 1].0));
                    } else {
                        assert(before[a - 1].0.before(before[b - 1].0));
                    }
                }
                assert forall|a: int| 0 <= a < after.len() implies (#[trigger] after[a]).1.len()
                    > 0 by {
                    if a < i {
                        assert(before[a].1.len() > 0);
                    } else if a > i {
                        assert(before[a - 1].1.len() > 0);
                    }
                }
                assert forall|o: SystemOrder|
                    #[trigger] entries_at(after, o) == (if o == order {
                        entries_at(before, o).push(entry)
                    } else {
                        entries_at(before, o)
                    }) by {
                    lemma_ascending_is_distinct(before);
                    lemma_ascending_is_distinct(after);
                    lemma_entries_at(before, o);
                    lemma_entries_at(after, o);
                    assert(Seq::<ScheduleEntry<S>>::empty().push(entry) =~= seq![entry]);
                    if o == order {
                        assert forall|j: int| 0 <= j < before.len() implies (
                        #[trigger] before[j]).0 != o by {
                            lemma_order_is_total(before[j].0, order, order);
                            if j >= i {
                                assert(order.before(before[j].0));
                            } else {
                                assert(before[j].0.before(order));
                            }
                        }
                        assert(after[i as int].0 == o);
                    } else if exists|j: int| 0 <= j < before.len() && before[j].0 == o {
                        let j = choose|j: int| 0 <= j < before.len() && before[j].0 == o;
                        if j < i {
                            assert(after[j] == before[j]);
                        } else {
                            assert(after[j + 1] == before[j]);
                        }
                    } else {
                        assert forall|j: int| 0 <= j < after.len() implies (#[trigger] after[j]).0
                            != o by {
                            if j < i {
                                assert(before[j].0 != o);
                            } else if j > i {
                                assert(before[j - 1].0 != o);
                            }
                        }
                    }
                }
            }
        }
    }

    /// Convert this data into the schedule: the entries in the sequence in
    /// which they run.
    pub fn into_schedule(self) -> (schedule: Vec<ScheduleEntry<S>>)
        ensures
            schedule@ == flattened(self@),
    {
        let ghost all = self@;
        let mut schedule: Vec<ScheduleEntry<S>> = Vec::new();
        let mut groups = self.groups;
        let total = groups.len();
        let mut rest: Vec<(SystemOrder, Vec<ScheduleEntry<S>>)> = Vec::new();
        // The groups are taken from the back, so turn them round first.
        let mut k: usize = 0;
        while k < total
            invariant
                total == all.len(),
                k <= total,
                groups@.len() == total - k,
                rest@.len() == k,
                forall|j: int|
                    0 <= j < groups@.len() ==> (#[trigger] groups@[j]).0 == all[j].0
                        && groups@[j].1@ == all[j].1,
                forall|j: int|
                    0 <= j < k ==> (#[trigger] rest@[j]).0 == all[total - 1 - j].0 && rest@[j].1@
                        == all[total - 1 - j].1,
            decreases total - k,
        {
            match groups.pop() {
                Some(group) => {
                    rest.push(group);
                },
                None => {},
            }
            k += 1;
        }
        let mut done: usize = 0;
        proof {
            assert(all.take(0) =~= Seq::empty());
        }
        while done < total
            invariant
                total == all.len(),
                done <= total,
                rest@.len() == total - done,
                forall|j: int|
                    0 <= j < rest@.len() ==> (#[trigger] rest@[j]).0 == all[total - 1 - j].0
                        && rest@[j].1@ == all[total - 1 - j].1,
                schedule@ == flattened(all.take(done as int)),
            decreases total - done,
        {
            match rest.pop() {
                Some(group) => {
                    let (_, mut entries) = group;
                    proof {
                        assert(all.take(done + 1).drop_last() =~= all.take(done as int));
                        assert(all.take(done + 1).last() == all[done as int]);
                    }
                    schedule.append(&mut entries);
                },
                None => {},
            }
            done += 1;
        }
        proof {
            assert(all.take(total as int) =~= all);
        }
        schedule
    }
}

/// The entries that were given the order, in the sequence in which they
/// were added.
pub open spec fn picked<S>(desc: Seq<(SystemOrder, ScheduleEntry<S>)>, order: SystemOrder) -> Seq<
    ScheduleEntry<S>,
>
    decreases desc.len(),
{
    if desc.len() == 0 {
        Seq::empty()
    } else if desc.last().0 == order {
        picked(desc.drop_last(), order).push(desc.last().1)
    } else {
        picked(desc.drop_last(), order)
    }
}

/// A bundle of systems that adds multiple related systems to a schedule.
pub trait SystemBundle<S>: Sized {
    /// Add the systems of the bundle, and the flush points between them, to
    /// the builder.
    fn build_systems(self, builder: &mut ScheduleBuilder<S>);
}

/// Builder for a schedule: it collects systems and flush points, each with
/// its order, and lays them out by that order.
pub struct ScheduleBuilder<S> {
    desc: Vec<(SystemOrder, ScheduleEntry<S>)>,
}

impl<S> ScheduleBuilder<S> {
    /// What was added so far, each entry with its order.
    pub closed spec fn view(&self) -> Seq<(SystemOrder, ScheduleEntry<S>)> {
        self.desc@
    }

    /// Create a new instance.
    pub fn new() -> (b: Self)
        ensures
            b@ == Seq::<(SystemOrder, ScheduleEntry<S>)>::empty(),
    {
        ScheduleBuilder { desc: Vec::new() }
    }

    /// Add the given schedule entry at the given order.
    pub fn add_entry(&mut self, order: SystemOrder, entry: ScheduleEntry<S>)
        ensures
            final(self)@ == old(self)@.push((order, entry)),
    {
        self.desc.push((order, entry));
    }

    /// Add a system at the given order.
    pub fn add_system(&mut self, order: SystemOrder, system: S)
        ensures
            final(self)@ == old(self)@.push((order, ScheduleEntry::System(system))),
    {
        self.add_entry(order, ScheduleEntry::System(system));
    }

    /// Add a system at the given order.
    pub fn with_system(self, order: SystemOrder, system: S) -> (b: Self)
        ensures
            b@ == self@.push((order, ScheduleEntry::System(system))),
    {
        let mut b = self;
        b.add_system(order, system);
        b
    }

    /// Add a flush command as the descriptor says.
    pub fn add_entry_desc(&mut self, desc: CmdBufFlush)
        ensures
            final(self)@ == old(self)@.push((desc.0, ScheduleEntry::Flush)),
    {
        self.add_entry(desc.0, ScheduleEntry::Flush);
    }

    /// Add flush command at the given order.
    pub fn add_flush(&mut self, order: SystemOrder)
        ensures
            final(self)@ == old(self)@.push((order, ScheduleEntry::Flush)),
    {
        self.add_entry_desc(CmdBufFlush::new(order));
    }

    /// Add flush command at the given order.
    pub fn with_flush(self, order: SystemOrder) -> (b: Self)
        ensures
            b@ == self@.push((order, ScheduleEntry::Flush)),
    {
        let mut b = self;
        b.add_flush(order);
        b
    }

    /// Hand out what was added, each entry with its order, in the sequence
    /// in which it was added.
    pub fn into_entries(self) -> (entries: Vec<(SystemOrder, ScheduleEntry<S>)>)
        ensures
            entries@ == self@,
    {
        self.desc
    }

    /// Convert this builder into static data: the entries grouped by their
    /// order, each group in the sequence in which its entries were added.
    pub fn into_data(self) -> (data: ScheduleData<S>)
        ensures
            data.wf(),
            forall|o: SystemOrder| #[trigger] entries_at(data@, o) == picked(self@, o),
    {
        let ghost all = self@;
        let mut data: ScheduleData<S> = ScheduleData::new();
        proof {
            assert(all.take(0) =~= Seq::empty());
        }
        for pair in it: self.desc.into_iter()
            invariant
                it.seq() == all,
                data.wf(),
                forall|o: SystemOrder| #[trigger]
                    entries_at(data@, o) == picked(all.take(it.index() as int), o),
        {
            let ghost k = it.index() as int;
            proof {
                assert(all.take(k + 1).drop_last() =~= all.take(k));
                assert(all.take(k + 1).last() == all[k]);
            }
            let (order, entry) = pair;
            data.insert(order, entry);
        }
        proof {
            assert(all.take(all.len() as int) =~= all);
        }
        data
    }

    /// Build the schedule: the entries in the sequence in which they run.
    pub fn build(self) -> (schedule: Vec<ScheduleEntry<S>>)
        ensures
            exists|groups: Seq<(SystemOrder, Seq<ScheduleEntry<S>>)>|
                {
                    &&& ascending(groups)
                    &&& forall|o: SystemOrder| #[trigger] entries_at(groups, o) == picked(self@, o)
                    &&& schedule@ == flattened(groups)
                },
    {
        let data = self.into_data();
        let ghost groups = data@;
        let schedule = data.into_schedule();
        assert(ascending(groups) && (forall|o: SystemOrder| #[trigger]
            entries_at(groups, o) == picked(self@, o)) && schedule@ == flattened(groups));
        schedule
    }
}

/// Groups in strictly ascending order have different orders.
proof fn lemma_ascending_is_distinct<S>(groups: Seq<(SystemOrder, Seq<ScheduleEntry<S>>)>)
    requires
        forall|i: int, j: int|
            0 <= i < j < groups.len() ==> (#[trigger] groups[i]).0.before((#[trigger] groups[j]).0),
    ensures
        forall|a: int, b: int|
            0 <= a < b < groups.len() ==> (#[trigger] groups[a]).0 != (#[trigger] groups[b]).0,
{
    assert forall|a: int, b: int| 0 <= a < b < groups.len() implies (#[trigger] groups[a]).0 != (
    #[trigger] groups[b]).0 by {
        lemma_order_is_total(groups[a].0, groups[b].0, groups[b].0);
        assert(groups[a].0.before(groups[b].0));
    }
}

/// In groups of different orders, the entries at an order are those of the
/// group that has it, and none if no group has it.
pub proof fn lemma_entries_at<S>(
    groups: Seq<(SystemOrder, Seq<ScheduleEntry<S>>)>,
    order: SystemOrder,
)
    requires
        forall|a: int, b: int|
            0 <= a < b < groups.len() ==> (#[trigger] groups[a]).0 != (#[trigger] groups[b]).0,
    ensures
        forall|i: int|
            0 <= i < groups.len() && (#[trigger] groups[i]).0 == order ==> entries_at(groups, order)
                == groups[i].1,
        (forall|i: int| 0 <= i < groups.len() ==> (#[trigger] groups[i]).0 != order) ==> entries_at(
            groups,
            order,
        ) == Seq::<ScheduleEntry<S>>::empty(),
{
    assert forall|i: int| 0 <= i < groups.len() && (#[trigger] groups[i]).0 == order implies entries_at(
        groups,
        order,
    ) == groups[i].1 by {
        lemma_entries_at_found(groups, i);
    }
    if forall|i: int| 0 <= i < groups.len() ==> (#[trigger] groups[i]).0 != order {
        lemma_entries_at_absent(groups, order);
    }
}

/// No entries stand at an order that no group has.
proof fn lemma_entries_at_absent<S>(
    groups: Seq<(SystemOrder, Seq<ScheduleEntry<S>>)>,
    order: SystemOrder,
)
    requires
        forall|j: int| 0 <= j < groups.len() ==> (#[trigger] groups[j]).0 != order,
    ensures
        entries_at(groups, order) == Seq::<ScheduleEntry<S>>::empty(),
    decreases groups.len(),
{
    if groups.len() > 0 {
        assert(groups[groups.len() - 1].0 != order);
        assert forall|j: int| 0 <= j < groups.drop_last().len() implies (
        #[trigger] groups.drop_last()[j]).0 != order by {
            assert(groups[j].0 != order);
        }
        lemma_entries_at_absent(groups.drop_last(), order);
    }
}

/// In groups of different orders, the entries at an order are those of the
/// group that has it.
proof fn lemma_entries_at_found<S>(
    groups: Seq<(SystemOrder, Seq<ScheduleEntry<S>>)>,
    i: int,
)
    requires
        0 <= i < groups.len(),
        forall|a: int, b: int|
            0 <= a < b < groups.len() ==> (#[trigger] groups[a]).0 != (#[trigger] groups[b]).0,
    ensures
        entries_at(groups, groups[i].0) == groups[i].1,
    decreases groups.len(),
{
    if i < groups.len() - 1 {
        assert(groups[i].0 != groups[groups.len() - 1].0);
        assert forall|a: int, b: int| 0 <= a < b < groups.drop_last().len() implies (
        #[trigger] groups.drop_last()[a]).0 != (#[trigger] groups.drop_last()[b]).0 by {
            assert(groups[a].0 != groups[b].0);
        }
        lemma_entries_at_found(groups.drop_last(), i);
        assert(groups.drop_last()[i] == groups[i]);
    }
}

} // verus!
