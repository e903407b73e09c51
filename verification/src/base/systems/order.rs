//! The order in which systems run.

use vstd::prelude::*;

verus! {

/// Priority of systems.
///
/// `First` comes before every number, numbers come in ascending order, and
/// `Last` comes after every number.
#[derive(Clone, Copy, Debug, PartialEq, Eq, Structural, PartialOrd, Ord, Hash)]
pub enum SystemPriority {
    /// The system executes at the very first.
    First,
    /// The system executes at the given priority, with lower number having
    /// higher priority.
    Numbered(usize),
    /// The system executes at the very last.
    Last,
}

impl SystemPriority {
    /// The place of the priority on the number line.
    pub open spec fn rank(self) -> int {
        match self {
            SystemPriority::First => -1,
            SystemPriority::Numbered(n) => n as int,
            SystemPriority::Last => usize::MAX + 1,
        }
    }

    /// Whether this priority comes strictly before the other.
    pub fn precedes(self, other: SystemPriority) -> (b: bool)
        ensures
            b == (self.rank() < other.rank()),
    {
        match self {
            SystemPriority::First => match other {
                SystemPriority::First => false,
                _ => true,
            },
            SystemPriority::Numbered(n) => match other {
                SystemPriority::First => false,
                SystemPriority::Numbered(m) => n < m,
                SystemPriority::Last => true,
            },
            SystemPriority::Last => false,
        }
    }
}

/// The order of systems: a major priority, and a minor one that orders the
/// systems of one major priority.
#[derive(Clone, Copy, Debug, PartialEq, Eq, Structural, PartialOrd, Ord, Hash)]
pub struct SystemOrder(pub SystemPriority, pub SystemPriority);

impl SystemOrder {
    /// Whether this order comes strictly before the other: by the major
    /// priority, and by the minor one where the major ones are equal.
    pub open spec fn before(self, other: SystemOrder) -> bool {
        self.0.rank() < other.0.rank() || (self.0.rank() == other.0.rank() && self.1.rank()
            < other.1.rank())
    }

    /// Create a new instance with the given numbers.
    pub fn numbered(n1: usize, n2: usize) -> (o: Self)
        ensures
            o == SystemOrder(SystemPriority::Numbered(n1), SystemPriority::Numbered(n2)),
    {
        SystemOrder(SystemPriority::Numbered(n1), SystemPriority::Numbered(n2))
    }

    /// Create a new instance with the given order in the first order.
    pub fn from_first_number(n: usize) -> (o: Self)
        ensures
            o == SystemOrder(SystemPriority::First, SystemPriority::Numbered(n)),
    {
        SystemOrder(SystemPriority::First, SystemPriority::Numbered(n))
    }

    /// Create a new instance with the given order in the last order.
    pub fn from_last_number(n: usize) -> (o: Self)
        ensures
            o == SystemOrder(SystemPriority::Last, SystemPriority::Numbered(n)),
    {
        SystemOrder(SystemPriority::Last, SystemPriority::Numbered(n))
    }

    /// Create a new instance with the first order in the given order.
    pub fn from_number_first(n: usize) -> (o: Self)
        ensures
            o == SystemOrder(SystemPriority::Numbered(n), SystemPriority::First),
    {
        SystemOrder(SystemPriority::Numbered(n), SystemPriority::First)
    }

    /// Create a new instance with the last order in the given order.
    pub fn from_number_last(n: usize) -> (o: Self)
        ensures
            o == SystemOrder(SystemPriority::Numbered(n), SystemPriority::Last),
    {
        SystemOrder(SystemPriority::Numbered(n), SystemPriority::Last)
    }

    /// Create a new instance with the first order.
    pub fn first() -> (o: Self)
        ensures
            o == SystemOrder(SystemPriority::First, SystemPriority::First),
    {
        SystemOrder(SystemPriority::First, SystemPriority::First)
    }

    /// Create a new instance with the last order.
    pub fn last() -> (o: Self)
        ensures
            o == SystemOrder(SystemPriority::Last, SystemPriority::Last),
    {
        SystemOrder(SystemPriority::Last, SystemPriority::Last)
    }

    /// Whether this order comes strictly before the other.
    pub fn precedes(self, other: SystemOrder) -> (b: bool)
        ensures
            b == self.before(other),
    {
        if self.0.precedes(other.0) {
            true
        } else if other.0.precedes(self.0) {
            false
        } else {
            self.1.precedes(other.1)
        }
    }
}

/// The order of systems is strict and total: no order comes before itself,
/// of two different orders exactly one comes before the other, and coming
/// before carries over from one pair to the next.
pub proof fn lemma_order_is_total(a: SystemOrder, b: SystemOrder, c: SystemOrder)
    ensures
        !a.before(a),
        a != b ==> (a.before(b) <==> !b.before(a)),
        a == b ==> !a.before(b),
        a.before(b) && b.before(c) ==> a.before(c),
{
}

} // verus!
