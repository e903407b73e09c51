//! A sized queue that keeps its size and drops any excess items.

use vstd::prelude::*;
use std::collections::VecDeque;

verus! {

/// A sized queue which drops the oldest value when a value is pushed into
/// a full queue.
#[derive(Debug)]
pub struct SizedQueue<T> {
    queue: VecDeque<T>,
    size: usize,
}

impl<T> SizedQueue<T> {
    /// The items of the queue, oldest first.
    pub closed spec fn view(&self) -> Seq<T> {
        self.queue@
    }

    /// The size that the queue was made with.
    pub closed spec fn capacity(&self) -> usize {
        self.size
    }

    /// Create a new instance with the given size.
    pub fn new(size: usize) -> (q: Self)
        ensures
            q@ == Seq::<T>::empty(),
            q.capacity() == size,
    {
        SizedQueue { queue: VecDeque::with_capacity(size), size }
    }

    /// Create a new instance with the given size.
    ///
    /// Alias method for `new`.
    pub fn from_size(size: usize) -> (q: Self)
        ensures
            q@ == Seq::<T>::empty(),
            q.capacity() == size,
    {
        Self::new(size)
    }

    /// Get the oldest inserted item.
    pub fn oldest(&self) -> (item: Option<&T>)
        ensures
            match item {
                Some(x) => self@.len() > 0 && *x == self@[0],
                None => self@.len() == 0,
            },
    {
        if self.queue.len() > 0 {
            Some(&self.queue[0])
        } else {
            None
        }
    }

    /// Get the last inserted item.
    pub fn newest(&self) -> (item: Option<&T>)
        ensures
            match item {
                Some(x) => self@.len() > 0 && *x == self@[self@.len() - 1],
                None => self@.len() == 0,
            },
    {
        let n = self.queue.len();
        if n > 0 {
            Some(&self.queue[n - 1])
        } else {
            None
        }
    }

    /// Push a new value into the queue and get the old one if the queue was
    /// full.
    ///
    /// The queue is full when it holds as many items as its size says; the
    /// oldest item then leaves to make room. A queue of size zero is full
    /// only while it is empty, when there is nothing to drop.
    pub fn push(&mut self, item: T) -> (dropped: Option<T>)
        ensures
            final(self).capacity() == old(self).capacity(),
            dropped == (if old(self)@.len() == old(self).capacity() && old(self)@.len() > 0 {
                Some(old(self)@[0])
            } else {
                None
            }),
            final(self)@ == (if old(self)@.len() == old(self).capacity() && old(self)@.len() > 0 {
                old(self)@.subrange(1, old(self)@.len() as int)
            } else {
                old(self)@
            }).push(item),
    {
        let dropped = if self.queue.len() == self.size {
            self.queue.pop_front()
        } else {
            None
        };
        self.queue.push_back(item);
        dropped
    }

    /// Get the size of this queue.
    pub fn size(&self) -> (n: usize)
        ensures
            n == self.capacity(),
    {
        self.size
    }

    /// Get how many items are actually stored in the queue.
    pub fn len(&self) -> (n: usize)
        ensures
            n == self@.len(),
    {
        self.queue.len()
    }

    /// Check if the queue is empty or not.
    pub fn is_empty(&self) -> (b: bool)
        ensures
            b == (self@.len() == 0),
    {
        self.queue.len() == 0
    }

    /// The item at the given position, counted from the oldest.
    pub fn get(&self, i: usize) -> (item: Option<&T>)
        ensures
            match item {
                Some(x) => i < self@.len() && *x == self@[i as int],
                None => i >= self@.len(),
            },
    {
        if i < self.queue.len() {
            Some(&self.queue[i])
        } else {
            None
        }
    }

    /// Get an iterator of this queue, which goes from the oldest item to the
    /// newest.
    pub fn iter(&self) -> (it: Iter<'_, T>)
        ensures
            it@ == self@,
    {
        let it = Iter { queue: self, front: 0, back: self.queue.len() };
        assert(it@ =~= self@);
        it
    }
}

/// Iterator of a [`SizedQueue`], which can be advanced from both ends.
pub struct Iter<'a, T> {
    queue: &'a SizedQueue<T>,
    front: usize,
    back: usize,
}

impl<'a, T> Iter<'a, T> {
    /// The items that are still to come, oldest first.
    pub closed spec fn view(&self) -> Seq<T> {
        if self.front <= self.back <= self.queue@.len() {
            self.queue@.subrange(self.front as int, self.back as int)
        } else {
            Seq::empty()
        }
    }

    /// Take the oldest of the items that are still to come.
    pub fn next(&mut self) -> (item: Option<&'a T>)
        ensures
            match item {
                Some(x) => {
                    &&& old(self)@.len() > 0
                    &&& *x == old(self)@[0]
                    &&& final(self)@ == old(self)@.subrange(1, old(self)@.len() as int)
                },
                None => old(self)@.len() == 0 && final(self)@ == old(self)@,
            },
    {
        if self.front < self.back && self.back <= self.queue.len() {
            let item = self.queue.get(self.front);
            self.front = self.front + 1;
            assert(self@ =~= old(self)@.subrange(1, old(self)@.len() as int));
            item
        } else {
            None
        }
    }

    /// Take the newest of the items that are still to come.
    pub fn next_back(&mut self) -> (item: Option<&'a T>)
        ensures
            match item {
                Some(x) => {
                    &&& old(self)@.len() > 0
                    &&& *x == old(self)@[old(self)@.len() - 1]
                    &&& final(self)@ == old(self)@.subrange(0, old(self)@.len() - 1)
                },
                None => old(self)@.len() == 0 && final(self)@ == old(self)@,
            },
    {
        if self.front < self.back && self.back <= self.queue.len() {
            self.back = self.back - 1;
            let item = self.queue.get(self.back);
            assert(self@ =~= old(self)@.subrange(0, old(self)@.len() - 1));
            item
        } else {
            None
        }
    }

    /// How many items are still to come.
    pub fn len(&self) -> (n: usize)
        ensures
            n == self@.len(),
    {
        if self.front <= self.back && self.back <= self.queue.len() {
            self.back - self.front
        } else {
            0
        }
    }
}

} // verus!
