//! The list of entities that have a given entity as their parent.

use vstd::prelude::*;
use smallvec::SmallVec;
use crate::ecs::entity::Entity;

verus! {

/// Component that stores what children an entity has.
///
/// It is derived from the `Parent` components by the hierarchy
/// synchronizer and is only in sync right after that has run. The list is
/// kept in a `smallvec::SmallVec` with room for four entities inline, which
/// Verus cannot look into: what it holds is named by [`children_items`].
#[verifier::external_body]
#[derive(Debug)]
pub struct Children {
    items: SmallVec<[usize; 4]>,
}

/// The identifiers that a child list holds, first to last.
pub uninterp spec fn children_items(c: Children) -> Seq<usize>;

/// `SmallVec::new`: the new list holds nothing.
#[verifier::external_body]
fn small_vec_new() -> (c: Children)
    ensures
        children_items(c) == Seq::<usize>::empty(),
{
    Children { items: SmallVec::new() }
}

/// `SmallVec::push`: the item is appended behind the others, which stay.
#[verifier::external_body]
fn small_vec_push(c: &mut Children, item: usize)
    ensures
        children_items(*final(c)) == children_items(*old(c)).push(item),
{
    c.items.push(item)
}

/// `SmallVec::retain` with a predicate that keeps what differs from `item`:
/// the items equal to `item` leave, the others stay in their order.
#[verifier::external_body]
fn small_vec_retain_other(c: &mut Children, item: usize)
    ensures
        children_items(*final(c)) == children_items(*old(c)).filter(other_than(item)),
{
    c.items.retain(|x| differs(*x, item))
}

/// `SmallVec::len`: the number of items held.
#[verifier::external_body]
fn small_vec_len(c: &Children) -> (n: usize)
    ensures
        n == children_items(*c).len(),
{
    c.items.len()
}

/// Indexing a `SmallVec` through its slice: the item at a position below the
/// length.
#[verifier::external_body]
fn small_vec_index(c: &Children, i: usize) -> (item: usize)
    requires
        i < children_items(*c).len(),
    ensures
        item == children_items(*c)[i as int],
{
    c.items[i]
}

/// `SmallVec::clone`: the copy holds the same items in the same order.
#[verifier::external_body]
fn small_vec_clone(c: &Children) -> (copy: Children)
    ensures
        children_items(copy) == children_items(*c),
{
    Children { items: c.items.clone() }
}

/// The test that keeps every identifier but the given one.
pub open spec fn other_than(id: usize) -> spec_fn(usize) -> bool {
    |x: usize| x != id
}

/// Whether two identifiers differ.
fn differs(a: usize, b: usize) -> (r: bool)
    ensures
        r == (a != b),
{
    a != b
}

impl Children {
    /// The identifiers of the children, first to last.
    pub open spec fn view(&self) -> Seq<usize> {
        children_items(*self)
    }

    /// Whether the entity is in the list.
    pub open spec fn lists(&self, entity: Entity) -> bool {
        self.view().contains(entity.id)
    }

    /// Create a new instance with nothing in the list.
    pub fn new() -> (c: Children)
        ensures
            c@ == Seq::<usize>::empty(),
    {
        small_vec_new()
    }

    /// Create a new instance with only one entity in the list.
    pub fn from_single(entity: Entity) -> (c: Children)
        ensures
            c@ == seq![entity.id],
    {
        let mut c = small_vec_new();
        small_vec_push(&mut c, entity.id);
        c
    }

    /// Append an entity behind the others.
    pub fn push(&mut self, entity: Entity)
        ensures
            final(self)@ == old(self)@.push(entity.id),
    {
        small_vec_push(self, entity.id)
    }

    /// Take every occurrence of an entity out of the list; the others keep
    /// their order.
    pub fn remove(&mut self, entity: Entity)
        ensures
            final(self)@ == old(self)@.filter(other_than(entity.id)),
    {
        small_vec_retain_other(self, entity.id)
    }

    /// How many entities are in the list.
    pub fn len(&self) -> (n: usize)
        ensures
            n == self@.len(),
    {
        small_vec_len(self)
    }

    /// Whether the list is empty.
    pub fn is_empty(&self) -> (b: bool)
        ensures
            b == (self@.len() == 0),
    {
        small_vec_len(self) == 0
    }

    /// The entity at the given position, if there is one.
    pub fn get(&self, i: usize) -> (e: Option<Entity>)
        ensures
            e == (if i < self@.len() {
                Some(Entity { id: self@[i as int] })
            } else {
                None
            }),
    {
        if i < small_vec_len(self) {
            Some(Entity { id: small_vec_index(self, i) })
        } else {
            None
        }
    }

    /// The entities of the list, first to last.
    pub fn to_vec(&self) -> (v: Vec<Entity>)
        ensures
            v@.len() == self@.len(),
            forall|i: int| 0 <= i < v@.len() ==> v@[i] == (Entity { id: #[trigger] self@[i] }),
    {
        let n = small_vec_len(self);
        let mut v: Vec<Entity> = Vec::new();
        let mut i: usize = 0;
        while i < n
            invariant
                n == self@.len(),
                i <= n,
                v@.len() == i,
                forall|j: int| 0 <= j < i ==> v@[j] == (Entity { id: #[trigger] self@[j] }),
            decreases n - i,
        {
            v.push(Entity { id: small_vec_index(self, i) });
            i += 1;
        }
        v
    }

    /// A copy of the list.
    pub fn duplicate(&self) -> (c: Children)
        ensures
            c@ == self@,
    {
        small_vec_clone(self)
    }
}

} // verus!
