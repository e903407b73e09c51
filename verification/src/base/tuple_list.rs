//! A heterogeneous list using tuples.
//!
//! A tuple of up to 26 items is a list: an item can be pushed to its front
//! or its back, which gives the tuple that is one item longer, and popped
//! from either end, which gives the item and the tuple that is one item
//! shorter.

use vstd::prelude::*;

verus! {

/// A tuple type that is a list.
///
/// All tuples of size up to 26 and the empty tuple (`()`) implement this
/// trait.
pub trait TupleList {
    /// The length of this list.
    const LENGTH: usize;
}

/// A tuple list that can be pushed to the front.
///
/// Since tuples of size up to 26 are considered as lists, those of sizes up
/// to 25 implement this trait.
pub trait TupleListPushFront<T>: TupleList + Sized {
    /// The tuple list type after pushing the new item.
    type Pushed: TupleList;

    /// The list with the new item in front of the others.
    spec fn with_front(self, new_item: T) -> Self::Pushed;

    /// Push a new item into the list.
    fn push_front(self, new_item: T) -> (pushed: Self::Pushed)
        ensures
            pushed == self.with_front(new_item),
    ;
}

/// A tuple list that can be pushed to the back.
///
/// Since tuples of size up to 26 are considered as lists, those of sizes up
/// to 25 implement this trait.
pub trait TupleListPushBack<T>: TupleList + Sized {
    /// The tuple list type after pushing the new item.
    type Pushed: TupleList;

    /// The list with the new item behind the others.
    spec fn with_back(self, new_item: T) -> Self::Pushed;

    /// Push a new item into the list.
    fn push_back(self, new_item: T) -> (pushed: Self::Pushed)
        ensures
            pushed == self.with_back(new_item),
    ;
}

/// A tuple list that can be popped from the front.
///
/// Since the empty tuple (`()`) has no items inside it, only tuples of size
/// from 1 to 26 implement this trait.
pub trait TupleListPopFront<T>: TupleList + Sized {
    /// The tuple list type after popping out the first item.
    type Popped: TupleList;

    /// The first item and the list of the others.
    spec fn without_front(self) -> (T, Self::Popped);

    /// Pop the first item from the list.
    fn pop_front(self) -> (popped: (T, Self::Popped))
        ensures
            popped == self.without_front(),
    ;
}

/// A tuple list that can be popped from the back.
///
/// Since the empty tuple (`()`) has no items inside it, only tuples of size
/// from 1 to 26 implement this trait.
pub trait TupleListPopBack<T>: TupleList + Sized {
    /// The tuple list type after popping out the last item.
    type Popped: TupleList;

    /// The last item and the list of the others.
    spec fn without_back(self) -> (T, Self::Popped);

    /// Pop the last item from the list.
    fn pop_back(self) -> (popped: (T, Self::Popped))
        ensures
            popped == self.without_back(),
    ;
}

impl TupleList for () {
    const LENGTH: usize = 0;
}

impl<A> TupleList for (A,) {
    const LENGTH: usize = 1;
}

impl<A, B> TupleList for (A, B) {
    const LENGTH: usize = 2;
}

impl<A, B, C> TupleList for (A, B, C) {
    const LENGTH: usize = 3;
}

impl<A, B, C, D> TupleList for (A, B, C, D) {
    const LENGTH: usize = 4;
}

impl<A, B, C, D, E> TupleList for (A, B, C, D, E) {
    const LENGTH: usize = 5;
}

impl<A, B, C, D, E, F> TupleList for (A, B, C, D, E, F) {
    const LENGTH: usize = 6;
}

impl<A, B, C, D, E, F, G> TupleList for (A, B, C, D, E, F, G) {
    const LENGTH: usize = 7;
}

impl<A, B, C, D, E, F, G, H> TupleList for (A, B, C, D, E, F, G, H) {
    const LENGTH: usize = 8;
}

impl<A, B, C, D, E, F, G, H, I> TupleList for (A, B, C, D, E, F, G, H, I) {
    const LENGTH: usize = 9;
}

impl<A, B, C, D, E, F, G, H, I, J> TupleList for (A, B, C, D, E, F, G, H, I, J) {
    const LENGTH: usize = 10;
}

impl<A, B, C, D, E, F, G, H, I, J, K> TupleList for (A, B, C, D, E, F, G, H, I, J, K) {
    const LENGTH: usize = 11;
}

impl<A, B, C, D, E, F, G, H, I, J, K, L> TupleList for (A, B, C, D, E, F, G, H, I, J, K, L) {
    const LENGTH: usize = 12;
}

impl<A, B, C, D, E, F, G, H, I, J, K, L, M> TupleList for (A, B, C, D, E, F, G, H, I, J, K, L, M) {
    const LENGTH: usize = 13;
}

impl<A, B, C, D, E, F, G, H, I, J, K, L, M, N> TupleList for (A, B, C, D, E, F, G, H, I, J, K, L, M, N) {
    const LENGTH: usize = 14;
}

impl<A, B, C, D, E, F, G, H, I, J, K, L, M, N, O> TupleList for (A, B, C, D, E, F, G, H, I, J, K, L, M, N, O) {
    const LENGTH: usize = 15;
}

impl<A, B, C, D, E, F, G, H, I, J, K, L, M, N, O, P> TupleList for (A, B, C, D, E, F, G, H, I, J, K, L, M, N, O, P) {
    const LENGTH: usize = 16;
}

impl<A, B, C, D, E, F, G, H, I, J, K, L, M, N, O, P, Q> TupleList for (A, B, C, D, E, F, G, H, I, J, K, L, M, N, O, P, Q) {
    const LENGTH: usize = 17;
}

impl<A, B, C, D, E, F, G, H, I, J, K, L, M, N, O, P, Q, R> TupleList for (A, B, C, D, E, F, G, H, I, J, K, L, M, N, O, P, Q, R) {
    const LENGTH: usize = 18;
}

impl<A, B, C, D, E, F, G, H, I, J, K, L, M, N, O, P, Q, R, S> TupleList for (A, B, C, D, E, F, G, H, I, J, K, L, M, N, O, P, Q, R, S) {
    const LENGTH: usize = 19;
}

impl<A, B, C, D, E, F, G, H, I, J, K, L, M, N, O, P, Q, R, S, T> TupleList for (A, B, C, D, E, F, G, H, I, J, K, L, M, N, O, P, Q, R, S, T) {
    const LENGTH: usize = 20;
}

impl<A, B, C, D, E, F, G, H, I, J, K, L, M, N, O, P, Q, R, S, T, U> TupleList for (A, B, C, D, E, F, G, H, I, J, K, L, M, N, O, P, Q, R, S, T, U) {
    const LENGTH: usize = 21;
}

impl<A, B, C, D, E, F, G, H, I, J, K, L, M, N, O, P, Q, R, S, T, U, V> TupleList for (A, B, C, D, E, F, G, H, I, J, K, L, M, N, O, P, Q, R, S, T, U, V) {
    const LENGTH: usize = 22;
}

impl<A, B, C, D, E, F, G, H, I, J, K, L, M, N, O, P, Q, R, S, T, U, V, W> TupleList for (A, B, C, D, E, F, G, H, I, J, K, L, M, N, O, P, Q, R, S, T, U, V, W) {
    const LENGTH: usize = 23;
}

impl<A, B, C, D, E, F, G, H, I, J, K, L, M, N, O, P, Q, R, S, T, U, V, W, X> TupleList for (A, B, C, D, E, F, G, H, I, J, K, L, M, N, O, P, Q, R, S, T, U, V, W, X) {
    const LENGTH: usize = 24;
}

impl<A, B, C, D, E, F, G, H, I, J, K, L, M, N, O, P, Q, R, S, T, U, V, W, X, Y> TupleList for (A, B, C, D, E, F, G, H, I, J, K, L, M, N, O, P, Q, R, S, T, U, V, W, X, Y) {
    const LENGTH: usize = 25;
}

impl<A, B, C, D, E, F, G, H, I, J, K, L, M, N, O, P, Q, R, S, T, U, V, W, X, Y, Z> TupleList for (A, B, C, D, E, F, G, H, I, J, K, L, M, N, O, P, Q, R, S, T, U, V, W, X, Y, Z) {
    const LENGTH: usize = 26;
}

impl<New> TupleListPushFront<New> for () {
    type Pushed = (New,);

    open spec fn with_front(self, new_item: New) -> (New,) {
        (new_item,)
    }

    fn push_front(self, new_item: New) -> (pushed: (New,)) {
        (new_item,)
    }
}

impl<New> TupleListPushBack<New> for () {
    type Pushed = (New,);

    open spec fn with_back(self, new_item: New) -> (New,) {
        (new_item,)
    }

    fn push_back(self, new_item: New) -> (pushed: (New,)) {
        (new_item,)
    }
}

impl<New, A> TupleListPushFront<New> for (A,) {
    type Pushed = (New, A);

    open spec fn with_front(self, new_item: New) -> (New, A) {
        (new_item, self.0)
    }

    fn push_front(self, new_item: New) -> (pushed: (New, A)) {
        (new_item, self.0)
    }
}

impl<A, New> TupleListPushBack<New> for (A,) {
    type Pushed = (A, New);

    open spec fn with_back(self, new_item: New) -> (A, New) {
        (self.0, new_item)
    }

    fn push_back(self, new_item: New) -> (pushed: (A, New)) {
        (self.0, new_item)
    }
}

impl<New, A, B> TupleListPushFront<New> for (A, B) {
    type Pushed = (New, A, B);

    open spec fn with_front(self, new_item: New) -> (New, A, B) {
        (new_item, self.0, self.1)
    }

    fn push_front(self, new_item: New) -> (pushed: (New, A, B)) {
        (new_item, self.0, self.1)
    }
}

impl<A, B, New> TupleListPushBack<New> for (A, B) {
    type Pushed = (A, B, New);

    open spec fn with_back(self, new_item: New) -> (A, B, New) {
        (self.0, self.1, new_item)
    }

    fn push_back(self, new_item: New) -> (pushed: (A, B, New)) {
        (self.0, self.1, new_item)
    }
}

impl<New, A, B, C> TupleListPushFront<New> for (A, B, C) {
    type Pushed = (New, A, B, C);

    open spec fn with_front(self, new_item: New) -> (New, A, B, C) {
        (new_item, self.0, self.1, self.2)
    }

    fn push_front(self, new_item: New) -> (pushed: (New, A, B, C)) {
        (new_item, self.0, self.1, self.2)
    }
}

impl<A, B, C, New> TupleListPushBack<New> for (A, B, C) {
    type Pushed = (A, B, C, New);

    open spec fn with_back(self, new_item: New) -> (A, B, C, New) {
        (self.0, self.1, self.2, new_item)
    }

    fn push_back(self, new_item: New) -> (pushed: (A, B, C, New)) {
        (self.0, self.1, self.2, new_item)
    }
}

impl<New, A, B, C, D> TupleListPushFront<New> for (A, B, C, D) {
    type Pushed = (New, A, B, C, D);

    open spec fn with_front(self, new_item: New) -> (New, A, B, C, D) {
        (new_item, self.0, self.1, self.2, self.3)
    }

    fn push_front(self, new_item: New) -> (pushed: (New, A, B, C, D)) {
        (new_item, self.0, self.1, self.2, self.3)
    }
}

impl<A, B, C, D, New> TupleListPushBack<New> for (A, B, C, D) {
    type Pushed = (A, B, C, D, New);

    open spec fn with_back(self, new_item: New) -> (A, B, C, D, New) {
        (self.0, self.1, self.2, self.3, new_item)
    }

    fn push_back(self, new_item: New) -> (pushed: (A, B, C, D, New)) {
        (self.0, self.1, self.2, self.3, new_item)
    }
}

impl<New, A, B, C, D, E> TupleListPushFront<New> for (A, B, C, D, E) {
    type Pushed = (New, A, B, C, D, E);

    open spec fn with_front(self, new_item: New) -> (New, A, B, C, D, E) {
        (new_item, self.0, self.1, self.2, self.3, self.4)
    }

    fn push_front(self, new_item: New) -> (pushed: (New, A, B, C, D, E)) {
        (new_item, self.0, self.1, self.2, self.3, self.4)
    }
}

impl<A, B, C, D, E, New> TupleListPushBack<New> for (A, B, C, D, E) {
    type Pushed = (A, B, C, D, E, New);

    open spec fn with_back(self, new_item: New) -> (A, B, C, D, E, New) {
        (self.0, self.1, self.2, self.3, self.4, new_item)
    }

    fn push_back(self, new_item: New) -> (pushed: (A, B, C, D, E, New)) {
        (self.0, self.1, self.2, self.3, self.4, new_item)
    }
}

impl<New, A, B, C, D, E, F> TupleListPushFront<New> for (A, B, C, D, E, F) {
    type Pushed = (New, A, B, C, D, E, F);

    open spec fn with_front(self, new_item: New) -> (New, A, B, C, D, E, F) {
        (new_item, self.0, self.1, self.2, self.3, self.4, self.5)
    }

    fn push_front(self, new_item: New) -> (pushed: (New, A, B, C, D, E, F)) {
        (new_item, self.0, self.1, self.2, self.3, self.4, self.5)
    }
}

impl<A, B, C, D, E, F, New> TupleListPushBack<New> for (A, B, C, D, E, F) {
    type Pushed = (A, B, C, D, E, F, New);

    open spec fn with_back(self, new_item: New) -> (A, B, C, D, E, F, New) {
        (self.0, self.1, self.2, self.3, self.4, self.5, new_item)
    }

    fn push_back(self, new_item: New) -> (pushed: (A, B, C, D, E, F, New)) {
        (self.0, self.1, self.2, self.3, self.4, self.5, new_item)
    }
}

impl<New, A, B, C, D, E, F, G> TupleListPushFront<New> for (A, B, C, D, E, F, G) {
    type Pushed = (New, A, B, C, D, E, F, G);

    open spec fn with_front(self, new_item: New) -> (New, A, B, C, D, E, F, G) {
        (new_item, self.0, self.1, self.2, self.3, self.4, self.5, self.6)
    }

    fn push_front(self, new_item: New) -> (pushed: (New, A, B, C, D, E, F, G)) {
        (new_item, self.0, self.1, self.2, self.3, self.4, self.5, self.6)
    }
}

impl<A, B, C, D, E, F, G, New> TupleListPushBack<New> for (A, B, C, D, E, F, G) {
    type Pushed = (A, B, C, D, E, F, G, New);

    open spec fn with_back(self, new_item: New) -> (A, B, C, D, E, F, G, New) {
        (self.0, self.1, self.2, self.3, self.4, self.5, self.6, new_item)
    }

    fn push_back(self, new_item: New) -> (pushed: (A, B, C, D, E, F, G, New)) {
        (self.0, self.1, self.2, self.3, self.4, self.5, self.6, new_item)
    }
}

impl<New, A, B, C, D, E, F, G, H> TupleListPushFront<New> for (A, B, C, D, E, F, G, H) {
    type Pushed = (New, A, B, C, D, E, F, G, H);

    open spec fn with_front(self, new_item: New) -> (New, A, B, C, D, E, F, G, H) {
        (new_item, self.0, self.1, self.2, self.3, self.4, self.5, self.6, self.7)
    }

    fn push_front(self, new_item: New) -> (pushed: (New, A, B, C, D, E, F, G, H)) {
        (new_item, self.0, self.1, self.2, self.3, self.4, self.5, self.6, self.7)
    }
}

impl<A, B, C, D, E, F, G, H, New> TupleListPushBack<New> for (A, B, C, D, E, F, G, H) {
    type Pushed = (A, B, C, D, E, F, G, H, New);

    open spec fn with_back(self, new_item: New) -> (A, B, C, D, E, F, G, H, New) {
        (self.0, self.1, self.2, self.3, self.4, self.5, self.6, self.7, new_item)
    }

    fn push_back(self, new_item: New) -> (pushed: (A, B, C, D, E, F, G, H, New)) {
        (self.0, self.1, self.2, self.3, self.4, self.5, self.6, self.7, new_item)
    }
}

impl<New, A, B, C, D, E, F, G, H, I> TupleListPushFront<New> for (A, B, C, D, E, F, G, H, I) {
    type Pushed = (New, A, B, C, D, E, F, G, H, I);

    open spec fn with_front(self, new_item: New) -> (New, A, B, C, D, E, F, G, H, I) {
        (new_item, self.0, self.1, self.2, self.3, self.4, self.5, self.6, self.7, self.8)
    }

    fn push_front(self, new_item: New) -> (pushed: (New, A, B, C, D, E, F, G, H, I)) {
        (new_item, self.0, self.1, self.2, self.3, self.4, self.5, self.6, self.7, self.8)
    }
}

impl<A, B, C, D, E, F, G, H, I, New> TupleListPushBack<New> for (A, B, C, D, E, F, G, H, I) {
    type Pushed = (A, B, C, D, E, F, G, H, I, New);

    open spec fn with_back(self, new_item: New) -> (A, B, C, D, E, F, G, H, I, New) {
        (self.0, self.1, self.2, self.3, self.4, self.5, self.6, self.7, self.8, new_item)
    }

    fn push_back(self, new_item: New) -> (pushed: (A, B, C, D, E, F, G, H, I, New)) {
        (self.0, self.1, self.2, self.3, self.4, self.5, self.6, self.7, self.8, new_item)
    }
}

impl<New, A, B, C, D, E, F, G, H, I, J> TupleListPushFront<New> for (A, B, C, D, E, F, G, H, I, J) {
    type Pushed = (New, A, B, C, D, E, F, G, H, I, J);

    open spec fn with_front(self, new_item: New) -> (New, A, B, C, D, E, F, G, H, I, J) {
        (new_item, self.0, self.1, self.2, self.3, self.4, self.5, self.6, self.7, self.8, self.9)
    }

    fn push_front(self, new_item: New) -> (pushed: (New, A, B, C, D, E, F, G, H, I, J)) {
        (new_item, self.0, self.1, self.2, self.3, self.4, self.5, self.6, self.7, self.8, self.9)
    }
}

impl<A, B, C, D, E, F, G, H, I, J, New> TupleListPushBack<New> for (A, B, C, D, E, F, G, H, I, J) {
    type Pushed = (A, B, C, D, E, F, G, H, I, J, New);

    open spec fn with_back(self, new_item: New) -> (A, B, C, D, E, F, G, H, I, J, New) {
        (self.0, self.1, self.2, self.3, self.4, self.5, self.6, self.7, self.8, self.9, new_item)
    }

    fn push_back(self, new_item: New) -> (pushed: (A, B, C, D, E, F, G, H, I, J, New)) {
        (self.0, self.1, self.2, self.3, self.4, self.5, self.6, self.7, self.8, self.9, new_item)
    }
}

impl<New, A, B, C, D, E, F, G, H, I, J, K> TupleListPushFront<New> for (A, B, C, D, E, F, G, H, I, J, K) {
    type Pushed = (New, A, B, C, D, E, F, G, H, I, J, K);

    open spec fn with_front(self, new_item: New) -> (New, A, B, C, D, E, F, G, H, I, J, K) {
        (new_item, self.0, self.1, self.2, self.3, self.4, self.5, self.6, self.7, self.8, self.9, self.10)
    }

    fn push_front(self, new_item: New) -> (pushed: (New, A, B, C, D, E, F, G, H, I, J, K)) {
        (new_item, self.0, self.1, self.2, self.3, self.4, self.5, self.6, self.7, self.8, self.9, self.10)
    }
}

impl<A, B, C, D, E, F, G, H, I, J, K, New> TupleListPushBack<New> for (A, B, C, D, E, F, G, H, I, J, K) {
    type Pushed = (A, B, C, D, E, F, G, H, I, J, K, New);

    open spec fn with_back(self, new_item: New) -> (A, B, C, D, E, F, G, H, I, J, K, New) {
        (self.0, self.1, self.2, self.3, self.4, self.5, self.6, self.7, self.8, self.9, self.10, new_item)
    }

    fn push_back(self, new_item: New) -> (pushed: (A, B, C, D, E, F, G, H, I, J, K, New)) {
        (self.0, self.1, self.2, self.3, self.4, self.5, self.6, self.7, self.8, self.9, self.10, new_item)
    }
}

impl<New, A, B, C, D, E, F, G, H, I, J, K, L> TupleListPushFront<New> for (A, B, C, D, E, F, G, H, I, J, K, L) {
    type Pushed = (New, A, B, C, D, E, F, G, H, I, J, K, L);

    open spec fn with_front(self, new_item: New) -> (New, A, B, C, D, E, F, G, H, I, J, K, L) {
        (new_item, self.0, self.1, self.2, self.3, self.4, self.5, self.6, self.7, self.8, self.9, self.10, self.11)
    }

    fn push_front(self, new_item: New) -> (pushed: (New, A, B, C, D, E, F, G, H, I, J, K, L)) {
        (new_item, self.0, self.1, self.2, self.3, self.4, self.5, self.6, self.7, self.8, self.9, self.10, self.11)
    }
}

impl<A, B, C, D, E, F, G, H, I, J, K, L, New> TupleListPushBack<New> for (A, B, C, D, E, F, G, H, I, J, K, L) {
    type Pushed = (A, B, C, D, E, F, G, H, I, J, K, L, New);

    open spec fn with_back(self, new_item: New) -> (A, B, C, D, E, F, G, H, I, J, K, L, New) {
        (self.0, self.1, self.2, self.3, self.4, self.5, self.6, self.7, self.8, self.9, self.10, self.11, new_item)
    }

    fn push_back(self, new_item: New) -> (pushed: (A, B, C, D, E, F, G, H, I, J, K, L, New)) {
        (self.0, self.1, self.2, self.3, self.4, self.5, self.6, self.7, self.8, self.9, self.10, self.11, new_item)
    }
}

impl<New, A, B, C, D, E, F, G, H, I, J, K, L, M> TupleListPushFront<New> for (A, B, C, D, E, F, G, H, I, J, K, L, M) {
    type Pushed = (New, A, B, C, D, E, F, G, H, I, J, K, L, M);

    open spec fn with_front(self, new_item: New) -> (New, A, B, C, D, E, F, G, H, I, J, K, L, M) {
        (new_item, self.0, self.1, self.2, self.3, self.4, self.5, self.6, self.7, self.8, self.9, self.10, self.11, self.12)
    }

    fn push_front(self, new_item: New) -> (pushed: (New, A, B, C, D, E, F, G, H, I, J, K, L, M)) {
        (new_item, self.0, self.1, self.2, self.3, self.4, self.5, self.6, self.7, self.8, self.9, self.10, self.11, self.12)
    }
}

impl<A, B, C, D, E, F, G, H, I, J, K, L, M, New> TupleListPushBack<New> for (A, B, C, D, E, F, G, H, I, J, K, L, M) {
    type Pushed = (A, B, C, D, E, F, G, H, I, J, K, L, M, New);

    open spec fn with_back(self, new_item: New) -> (A, B, C, D, E, F, G, H, I, J, K, L, M, New) {
        (self.0, self.1, self.2, self.3, self.4, self.5, self.6, self.7, self.8, self.9, self.10, self.11, self.12, new_item)
    }

    fn push_back(self, new_item: New) -> (pushed: (A, B, C, D, E, F, G, H, I, J, K, L, M, New)) {
        (self.0, self.1, self.2, self.3, self.4, self.5, self.6, self.7, self.8, self.9, self.10, self.11, self.12, new_item)
    }
}

impl<New, A, B, C, D, E, F, G, H, I, J, K, L, M, N> TupleListPushFront<New> for (A, B, C, D, E, F, G, H, I, J, K, L, M, N) {
    type Pushed = (New, A, B, C, D, E, F, G, H, I, J, K, L, M, N);

    open spec fn with_front(self, new_item: New) -> (New, A, B, C, D, E, F, G, H, I, J, K, L, M, N) {
        (new_item, self.0, self.1, self.2, self.3, self.4, self.5, self.6, self.7, self.8, self.9, self.10, self.11, self.12, self.13)
    }

    fn push_front(self, new_item: New) -> (pushed: (New, A, B, C, D, E, F, G, H, I, J, K, L, M, N)) {
        (new_item, self.0, self.1, self.2, self.3, self.4, self.5, self.6, self.7, self.8, self.9, self.10, self.11, self.12, self.13)
    }
}

impl<A, B, C, D, E, F, G, H, I, J, K, L, M, N, New> TupleListPushBack<New> for (A, B, C, D, E, F, G, H, I, J, K, L, M, N) {
    type Pushed = (A, B, C, D, E, F, G, H, I, J, K, L, M, N, New);

    open spec fn with_back(self, new_item: New) -> (A, B, C, D, E, F, G, H, I, J, K, L, M, N, New) {
        (self.0, self.1, self.2, self.3, self.4, self.5, self.6, self.7, self.8, self.9, self.10, self.11, self.12, self.13, new_item)
    }

    fn push_back(self, new_item: New) -> (pushed: (A, B, C, D, E, F, G, H, I, J, K, L, M, N, New)) {
        (self.0, self.1, self.2, self.3, self.4, self.5, self.6, self.7, self.8, self.9, self.10, self.11, self.12, self.13, new_item)
    }
}

impl<New, A, B, C, D, E, F, G, H, I, J, K, L, M, N, O> TupleListPushFront<New> for (A, B, C, D, E, F, G, H, I, J, K, L, M, N, O) {
    type Pushed = (New, A, B, C, D, E, F, G, H, I, J, K, L, M, N, O);

    open spec fn with_front(self, new_item: New) -> (New, A, B, C, D, E, F, G, H, I, J, K, L, M, N, O) {
        (new_item, self.0, self.1, self.2, self.3, self.4, self.5, self.6, self.7, self.8, self.9, self.10, self.11, self.12, self.13, self.14)
    }

    fn push_front(self, new_item: New) -> (pushed: (New, A, B, C, D, E, F, G, H, I, J, K, L, M, N, O)) {
        (new_item, self.0, self.1, self.2, self.3, self.4, self.5, self.6, self.7, self.8, self.9, self.10, self.11, self.12, self.13, self.14)
    }
}

impl<A, B, C, D, E, F, G, H, I, J, K, L, M, N, O, New> TupleListPushBack<New> for (A, B, C, D, E, F, G, H, I, J, K, L, M, N, O) {
    type Pushed = (A, B, C, D, E, F, G, H, I, J, K, L, M, N, O, New);

    open spec fn with_back(self, new_item: New) -> (A, B, C, D, E, F, G, H, I, J, K, L, M, N, O, New) {
        (self.0, self.1, self.2, self.3, self.4, self.5, self.6, self.7, self.8, self.9, self.10, self.11, self.12, self.13, self.14, new_item)
    }

    fn push_back(self, new_item: New) -> (pushed: (A, B, C, D, E, F, G, H, I, J, K, L, M, N, O, New)) {
        (self.0, self.1, self.2, self.3, self.4, self.5, self.6, self.7, self.8, self.9, self.10, self.11, self.12, self.13, self.14, new_item)
    }
}

impl<New, A, B, C, D, E, F, G, H, I, J, K, L, M, N, O, P> TupleListPushFront<New> for (A, B, C, D, E, F, G, H, I, J, K, L, M, N, O, P) {
    type Pushed = (New, A, B, C, D, E, F, G, H, I, J, K, L, M, N, O, P);

    open spec fn with_front(self, new_item: New) -> (New, A, B, C, D, E, F, G, H, I, J, K, L, M, N, O, P) {
        (new_item, self.0, self.1, self.2, self.3, self.4, self.5, self.6, self.7, self.8, self.9, self.10, self.11, self.12, self.13, self.14, self.15)
    }

    fn push_front(self, new_item: New) -> (pushed: (New, A, B, C, D, E, F, G, H, I, J, K, L, M, N, O, P)) {
        (new_item, self.0, self.1, self.2, self.3, self.4, self.5, self.6, self.7, self.8, self.9, self.10, self.11, self.12, self.13, self.14, self.15)
    }
}

impl<A, B, C, D, E, F, G, H, I, J, K, L, M, N, O, P, New> TupleListPushBack<New> for (A, B, C, D, E, F, G, H, I, J, K, L, M, N, O, P) {
    type Pushed = (A, B, C, D, E, F, G, H, I, J, K, L, M, N, O, P, New);

    open spec fn with_back(self, new_item: New) -> (A, B, C, D, E, F, G, H, I, J, K, L, M, N, O, P, New) {
        (self.0, self.1, self.2, self.3, self.4, self.5, self.6, self.7, self.8, self.9, self.10, self.11, self.12, self.13, self.14, self.15, new_item)
    }

    fn push_back(self, new_item: New) -> (pushed: (A, B, C, D, E, F, G, H, I, J, K, L, M, N, O, P, New)) {
        (self.0, self.1, self.2, self.3, self.4, self.5, self.6, self.7, self.8, self.9, self.10, self.11, self.12, self.13, self.14, self.15, new_item)
    }
}

impl<New, A, B, C, D, E, F, G, H, I, J, K, L, M, N, O, P, Q> TupleListPushFront<New> for (A, B, C, D, E, F, G, H, I, J, K, L, M, N, O, P, Q) {
    type Pushed = (New, A, B, C, D, E, F, G, H, I, J, K, L, M, N, O, P, Q);

    open spec fn with_front(self, new_item: New) -> (New, A, B, C, D, E, F, G, H, I, J, K, L, M, N, O, P, Q) {
        (new_item, self.0, self.1, self.2, self.3, self.4, self.5, self.6, self.7, self.8, self.9, self.10, self.11, self.12, self.13, self.14, self.15, self.16)
    }

    fn push_front(self, new_item: New) -> (pushed: (New, A, B, C, D, E, F, G, H, I, J, K, L, M, N, O, P, Q)) {
        (new_item, self.0, self.1, self.2, self.3, self.4, self.5, self.6, self.7, self.8, self.9, self.10, self.11, self.12, self.13, self.14, self.15, self.16)
    }
}

impl<A, B, C, D, E, F, G, H, I, J, K, L, M, N, O, P, Q, New> TupleListPushBack<New> for (A, B, C, D, E, F, G, H, I, J, K, L, M, N, O, P, Q) {
    type Pushed = (A, B, C, D, E, F, G, H, I, J, K, L, M, N, O, P, Q, New);

    open spec fn with_back(self, new_item: New) -> (A, B, C, D, E, F, G, H, I, J, K, L, M, N, O, P, Q, New) {
        (self.0, self.1, self.2, self.3, self.4, self.5, self.6, self.7, self.8, self.9, self.10, self.11, self.12, self.13, self.14, self.15, self.16, new_item)
    }

    fn push_back(self, new_item: New) -> (pushed: (A, B, C, D, E, F, G, H, I, J, K, L, M, N, O, P, Q, New)) {
        (self.0, self.1, self.2, self.3, self.4, self.5, self.6, self.7, self.8, self.9, self.10, self.11, self.12, self.13, self.14, self.15, self.16, new_item)
    }
}

impl<New, A, B, C, D, E, F, G, H, I, J, K, L, M, N, O, P, Q, R> TupleListPushFront<New> for (A, B, C, D, E, F, G, H, I, J, K, L, M, N, O, P, Q, R) {
    type Pushed = (New, A, B, C, D, E, F, G, H, I, J, K, L, M, N, O, P, Q, R);

    open spec fn with_front(self, new_item: New) -> (New, A, B, C, D, E, F, G, H, I, J, K, L, M, N, O, P, Q, R) {
        (new_item, self.0, self.1, self.2, self.3, self.4, self.5, self.6, self.7, self.8, self.9, self.10, self.11, self.12, self.13, self.14, self.15, self.16, self.17)
    }

    fn push_front(self, new_item: New) -> (pushed: (New, A, B, C, D, E, F, G, H, I, J, K, L, M, N, O, P, Q, R)) {
        (new_item, self.0, self.1, self.2, self.3, self.4, self.5, self.6, self.7, self.8, self.9, self.10, self.11, self.12, self.13, self.14, self.15, self.16, self.17)
    }
}

impl<A, B, C, D, E, F, G, H, I, J, K, L, M, N, O, P, Q, R, New> TupleListPushBack<New> for (A, B, C, D, E, F, G, H, I, J, K, L, M, N, O, P, Q, R) {
    type Pushed = (A, B, C, D, E, F, G, H, I, J, K, L, M, N, O, P, Q, R, New);

    open spec fn with_back(self, new_item: New) -> (A, B, C, D, E, F, G, H, I, J, K, L, M, N, O, P, Q, R, New) {
        (self.0, self.1, self.2, self.3, self.4, self.5, self.6, self.7, self.8, self.9, self.10, self.11, self.12, self.13, self.14, self.15, self.16, self.17, new_item)
    }

    fn push_back(self, new_item: New) -> (pushed: (A, B, C, D, E, F, G, H, I, J, K, L, M, N, O, P, Q, R, New)) {
        (self.0, self.1, self.2, self.3, self.4, self.5, self.6, self.7, self.8, self.9, self.10, self.11, self.12, self.13, self.14, self.15, self.16, self.17, new_item)
    }
}

impl<New, A, B, C, D, E, F, G, H, I, J, K, L, M, N, O, P, Q, R, S> TupleListPushFront<New> for (A, B, C, D, E, F, G, H, I, J, K, L, M, N, O, P, Q, R, S) {
    type Pushed = (New, A, B, C, D, E, F, G, H, I, J, K, L, M, N, O, P, Q, R, S);

    open spec fn with_front(self, new_item: New) -> (New, A, B, C, D, E, F, G, H, I, J, K, L, M, N, O, P, Q, R, S) {
        (new_item, self.0, self.1, self.2, self.3, self.4, self.5, self.6, self.7, self.8, self.9, self.10, self.11, self.12, self.13, self.14, self.15, self.16, self.17, self.18)
    }

    fn push_front(self, new_item: New) -> (pushed: (New, A, B, C, D, E, F, G, H, I, J, K, L, M, N, O, P, Q, R, S)) {
        (new_item, self.0, self.1, self.2, self.3, self.4, self.5, self.6, self.7, self.8, self.9, self.10, self.11, self.12, self.13, self.14, self.15, self.16, self.17, self.18)
    }
}

impl<A, B, C, D, E, F, G, H, I, J, K, L, M, N, O, P, Q, R, S, New> TupleListPushBack<New> for (A, B, C, D, E, F, G, H, I, J, K, L, M, N, O, P, Q, R, S) {
    type Pushed = (A, B, C, D, E, F, G, H, I, J, K, L, M, N, O, P, Q, R, S, New);

    open spec fn with_back(self, new_item: New) -> (A, B, C, D, E, F, G, H, I, J, K, L, M, N, O, P, Q, R, S, New) {
        (self.0, self.1, self.2, self.3, self.4, self.5, self.6, self.7, self.8, self.9, self.10, self.11, self.12, self.13, self.14, self.15, self.16, self.17, self.18, new_item)
    }

    fn push_back(self, new_item: New) -> (pushed: (A, B, C, D, E, F, G, H, I, J, K, L, M, N, O, P, Q, R, S, New)) {
        (self.0, self.1, self.2, self.3, self.4, self.5, self.6, self.7, self.8, self.9, self.10, self.11, self.12, self.13, self.14, self.15, self.16, self.17, self.18, new_item)
    }
}

impl<New, A, B, C, D, E, F, G, H, I, J, K, L, M, N, O, P, Q, R, S, T> TupleListPushFront<New> for (A, B, C, D, E, F, G, H, I, J, K, L, M, N, O, P, Q, R, S, T) {
    type Pushed = (New, A, B, C, D, E, F, G, H, I, J, K, L, M, N, O, P, Q, R, S, T);

    open spec fn with_front(self, new_item: New) -> (New, A, B, C, D, E, F, G, H, I, J, K, L, M, N, O, P, Q, R, S, T) {
        (new_item, self.0, self.1, self.2, self.3, self.4, self.5, self.6, self.7, self.8, self.9, self.10, self.11, self.12, self.13, self.14, self.15, self.16, self.17, self.18, self.19)
    }

    fn push_front(self, new_item: New) -> (pushed: (New, A, B, C, D, E, F, G, H, I, J, K, L, M, N, O, P, Q, R, S, T)) {
        (new_item, self.0, self.1, self.2, self.3, self.4, self.5, self.6, self.7, self.8, self.9, self.10, self.11, self.12, self.13, self.14, self.15, self.16, self.17, self.18, self.19)
    }
}

impl<A, B, C, D, E, F, G, H, I, J, K, L, M, N, O, P, Q, R, S, T, New> TupleListPushBack<New> for (A, B, C, D, E, F, G, H, I, J, K, L, M, N, O, P, Q, R, S, T) {
    type Pushed = (A, B, C, D, E, F, G, H, I, J, K, L, M, N, O, P, Q, R, S, T, New);

    open spec fn with_back(self, new_item: New) -> (A, B, C, D, E, F, G, H, I, J, K, L, M, N, O, P, Q, R, S, T, New) {
        (self.0, self.1, self.2, self.3, self.4, self.5, self.6, self.7, self.8, self.9, self.10, self.11, self.12, self.13, self.14, self.15, self.16, self.17, self.18, self.19, new_item)
    }

    fn push_back(self, new_item: New) -> (pushed: (A, B, C, D, E, F, G, H, I, J, K, L, M, N, O, P, Q, R, S, T, New)) {
        (self.0, self.1, self.2, self.3, self.4, self.5, self.6, self.7, self.8, self.9, self.10, self.11, self.12, self.13, self.14, self.15, self.16, self.17, self.18, self.19, new_item)
    }
}

impl<New, A, B, C, D, E, F, G, H, I, J, K, L, M, N, O, P, Q, R, S, T, U> TupleListPushFront<New> for (A, B, C, D, E, F, G, H, I, J, K, L, M, N, O, P, Q, R, S, T, U) {
    type Pushed = (New, A, B, C, D, E, F, G, H, I, J, K, L, M, N, O, P, Q, R, S, T, U);

    open spec fn with_front(self, new_item: New) -> (New, A, B, C, D, E, F, G, H, I, J, K, L, M, N, O, P, Q, R, S, T, U) {
        (new_item, self.0, self.1, self.2, self.3, self.4, self.5, self.6, self.7, self.8, self.9, self.10, self.11, self.12, self.13, self.14, self.15, self.16, self.17, self.18, self.19, self.20)
    }

    fn push_front(self, new_item: New) -> (pushed: (New, A, B, C, D, E, F, G, H, I, J, K, L, M, N, O, P, Q, R, S, T, U)) {
        (new_item, self.0, self.1, self.2, self.3, self.4, self.5, self.6, self.7, self.8, self.9, self.10, self.11, self.12, self.13, self.14, self.15, self.16, self.17, self.18, self.19, self.20)
    }
}

impl<A, B, C, D, E, F, G, H, I, J, K, L, M, N, O, P, Q, R, S, T, U, New> TupleListPushBack<New> for (A, B, C, D, E, F, G, H, I, J, K, L, M, N, O, P, Q, R, S, T, U) {
    type Pushed = (A, B, C, D, E, F, G, H, I, J, K, L, M, N, O, P, Q, R, S, T, U, New);

    open spec fn with_back(self, new_item: New) -> (A, B, C, D, E, F, G, H, I, J, K, L, M, N, O, P, Q, R, S, T, U, New) {
        (self.0, self.1, self.2, self.3, self.4, self.5, self.6, self.7, self.8, self.9, self.10, self.11, self.12, self.13, self.14, self.15, self.16, self.17, self.18, self.19, self.20, new_item)
    }

    fn push_back(self, new_item: New) -> (pushed: (A, B, C, D, E, F, G, H, I, J, K, L, M, N, O, P, Q, R, S, T, U, New)) {
        (self.0, self.1, self.2, self.3, self.4, self.5, self.6, self.7, self.8, self.9, self.10, self.11, self.12, self.13, self.14, self.15, self.16, self.17, self.18, self.19, self.20, new_item)
    }
}

impl<New, A, B, C, D, E, F, G, H, I, J, K, L, M, N, O, P, Q, R, S, T, U, V> TupleListPushFront<New> for (A, B, C, D, E, F, G, H, I, J, K, L, M, N, O, P, Q, R, S, T, U, V) {
    type Pushed = (New, A, B, C, D, E, F, G, H, I, J, K, L, M, N, O, P, Q, R, S, T, U, V);

    open spec fn with_front(self, new_item: New) -> (New, A, B, C, D, E, F, G, H, I, J, K, L, M, N, O, P, Q, R, S, T, U, V) {
        (new_item, self.0, self.1, self.2, self.3, self.4, self.5, self.6, self.7, self.8, self.9, self.10, self.11, self.12, self.13, self.14, self.15, self.16, self.17, self.18, self.19, self.20, self.21)
    }

    fn push_front(self, new_item: New) -> (pushed: (New, A, B, C, D, E, F, G, H, I, J, K, L, M, N, O, P, Q, R, S, T, U, V)) {
        (new_item, self.0, self.1, self.2, self.3, self.4, self.5, self.6, self.7, self.8, self.9, self.10, self.11, self.12, self.13, self.14, self.15, self.16, self.17, self.18, self.19, self.20, self.21)
    }
}

impl<A, B, C, D, E, F, G, H, I, J, K, L, M, N, O, P, Q, R, S, T, U, V, New> TupleListPushBack<New> for (A, B, C, D, E, F, G, H, I, J, K, L, M, N, O, P, Q, R, S, T, U, V) {
    type Pushed = (A, B, C, D, E, F, G, H, I, J, K, L, M, N, O, P, Q, R, S, T, U, V, New);

    open spec fn with_back(self, new_item: New) -> (A, B, C, D, E, F, G, H, I, J, K, L, M, N, O, P, Q, R, S, T, U, V, New) {
        (self.0, self.1, self.2, self.3, self.4, self.5, self.6, self.7, self.8, self.9, self.10, self.11, self.12, self.13, self.14, self.15, self.16, self.17, self.18, self.19, self.20, self.21, new_item)
    }

    fn push_back(self, new_item: New) -> (pushed: (A, B, C, D, E, F, G, H, I, J, K, L, M, N, O, P, Q, R, S, T, U, V, New)) {
        (self.0, self.1, self.2, self.3, self.4, self.5, self.6, self.7, self.8, self.9, self.10, self.11, self.12, self.13, self.14, self.15, self.16, self.17, self.18, self.19, self.20, self.21, new_item)
    }
}

impl<New, A, B, C, D, E, F, G, H, I, J, K, L, M, N, O, P, Q, R, S, T, U, V, W> TupleListPushFront<New> for (A, B, C, D, E, F, G, H, I, J, K, L, M, N, O, P, Q, R, S, T, U, V, W) {
    type Pushed = (New, A, B, C, D, E, F, G, H, I, J, K, L, M, N, O, P, Q, R, S, T, U, V, W);

    open spec fn with_front(self, new_item: New) -> (New, A, B, C, D, E, F, G, H, I, J, K, L, M, N, O, P, Q, R, S, T, U, V, W) {
        (new_item, self.0, self.1, self.2, self.3, self.4, self.5, self.6, self.7, self.8, self.9, self.10, self.11, self.12, self.13, self.14, self.15, self.16, self.17, self.18, self.19, self.20, self.21, self.22)
    }

    fn push_front(self, new_item: New) -> (pushed: (New, A, B, C, D, E, F, G, H, I, J, K, L, M, N, O, P, Q, R, S, T, U, V, W)) {
        (new_item, self.0, self.1, self.2, self.3, self.4, self.5, self.6, self.7, self.8, self.9, self.10, self.11, self.12, self.13, self.14, self.15, self.16, self.17, self.18, self.19, self.20, self.21, self.22)
    }
}

impl<A, B, C, D, E, F, G, H, I, J, K, L, M, N, O, P, Q, R, S, T, U, V, W, New> TupleListPushBack<New> for (A, B, C, D, E, F, G, H, I, J, K, L, M, N, O, P, Q, R, S, T, U, V, W) {
    type Pushed = (A, B, C, D, E, F, G, H, I, J, K, L, M, N, O, P, Q, R, S, T, U, V, W, New);

    open spec fn with_back(self, new_item: New) -> (A, B, C, D, E, F, G, H, I, J, K, L, M, N, O, P, Q, R, S, T, U, V, W, New) {
        (self.0, self.1, self.2, self.3, self.4, self.5, self.6, self.7, self.8, self.9, self.10, self.11, self.12, self.13, self.14, self.15, self.16, self.17, self.18, self.19, self.20, self.21, self.22, new_item)
    }

    fn push_back(self, new_item: New) -> (pushed: (A, B, C, D, E, F, G, H, I, J, K, L, M, N, O, P, Q, R, S, T, U, V, W, New)) {
        (self.0, self.1, self.2, self.3, self.4, self.5, self.6, self.7, self.8, self.9, self.10, self.11, self.12, self.13, self.14, self.15, self.16, self.17, self.18, self.19, self.20, self.21, self.22, new_item)
    }
}

impl<New, A, B, C, D, E, F, G, H, I, J, K, L, M, N, O, P, Q, R, S, T, U, V, W, X> TupleListPushFront<New> for (A, B, C, D, E, F, G, H, I, J, K, L, M, N, O, P, Q, R, S, T, U, V, W, X) {
    type Pushed = (New, A, B, C, D, E, F, G, H, I, J, K, L, M, N, O, P, Q, R, S, T, U, V, W, X);

    open spec fn with_front(self, new_item: New) -> (New, A, B, C, D, E, F, G, H, I, J, K, L, M, N, O, P, Q, R, S, T, U, V, W, X) {
        (new_item, self.0, self.1, self.2, self.3, self.4, self.5, self.6, self.7, self.8, self.9, self.10, self.11, self.12, self.13, self.14, self.15, self.16, self.17, self.18, self.19, self.20, self.21, self.22, self.23)
    }

    fn push_front(self, new_item: New) -> (pushed: (New, A, B, C, D, E, F, G, H, I, J, K, L, M, N, O, P, Q, R, S, T, U, V, W, X)) {
        (new_item, self.0, self.1, self.2, self.3, self.4, self.5, self.6, self.7, self.8, self.9, self.10, self.11, self.12, self.13, self.14, self.15, self.16, self.17, self.18, self.19, self.20, self.21, self.22, self.23)
    }
}

impl<A, B, C, D, E, F, G, H, I, J, K, L, M, N, O, P, Q, R, S, T, U, V, W, X, New> TupleListPushBack<New> for (A, B, C, D, E, F, G, H, I, J, K, L, M, N, O, P, Q, R, S, T, U, V, W, X) {
    type Pushed = (A, B, C, D, E, F, G, H, I, J, K, L, M, N, O, P, Q, R, S, T, U, V, W, X, New);

    open spec fn with_back(self, new_item: New) -> (A, B, C, D, E, F, G, H, I, J, K, L, M, N, O, P, Q, R, S, T, U, V, W, X, New) {
        (self.0, self.1, self.2, self.3, self.4, self.5, self.6, self.7, self.8, self.9, self.10, self.11, self.12, self.13, self.14, self.15, self.16, self.17, self.18, self.19, self.20, self.21, self.22, self.23, new_item)
    }

    fn push_back(self, new_item: New) -> (pushed: (A, B, C, D, E, F, G, H, I, J, K, L, M, N, O, P, Q, R, S, T, U, V, W, X, New)) {
        (self.0, self.1, self.2, self.3, self.4, self.5, self.6, self.7, self.8, self.9, self.10, self.11, self.12, self.13, self.14, self.15, self.16, self.17, self.18, self.19, self.20, self.21, self.22, self.23, new_item)
    }
}

impl<New, A, B, C, D, E, F, G, H, I, J, K, L, M, N, O, P, Q, R, S, T, U, V, W, X, Y> TupleListPushFront<New> for (A, B, C, D, E, F, G, H, I, J, K, L, M, N, O, P, Q, R, S, T, U, V, W, X, Y) {
    type Pushed = (New, A, B, C, D, E, F, G, H, I, J, K, L, M, N, O, P, Q, R, S, T, U, V, W, X, Y);

    open spec fn with_front(self, new_item: New) -> (New, A, B, C, D, E, F, G, H, I, J, K, L, M, N, O, P, Q, R, S, T, U, V, W, X, Y) {
        (new_item, self.0, self.1, self.2, self.3, self.4, self.5, self.6, self.7, self.8, self.9, self.10, self.11, self.12, self.13, self.14, self.15, self.16, self.17, self.18, self.19, self.20, self.21, self.22, self.23, self.24)
    }

    fn push_front(self, new_item: New) -> (pushed: (New, A, B, C, D, E, F, G, H, I, J, K, L, M, N, O, P, Q, R, S, T, U, V, W, X, Y)) {
        (new_item, self.0, self.1, self.2, self.3, self.4, self.5, self.6, self.7, self.8, self.9, self.10, self.11, self.12, self.13, self.14, self.15, self.16, self.17, self.18, self.19, self.20, self.21, self.22, self.23, self.24)
    }
}

impl<A, B, C, D, E, F, G, H, I, J, K, L, M, N, O, P, Q, R, S, T, U, V, W, X, Y, New> TupleListPushBack<New> for (A, B, C, D, E, F, G, H, I, J, K, L, M, N, O, P, Q, R, S, T, U, V, W, X, Y) {
    type Pushed = (A, B, C, D, E, F, G, H, I, J, K, L, M, N, O, P, Q, R, S, T, U, V, W, X, Y, New);

    open spec fn with_back(self, new_item: New) -> (A, B, C, D, E, F, G, H, I, J, K, L, M, N, O, P, Q, R, S, T, U, V, W, X, Y, New) {
        (self.0, self.1, self.2, self.3, self.4, self.5, self.6, self.7, self.8, self.9, self.10, self.11, self.12, self.13, self.14, self.15, self.16, self.17, self.18, self.19, self.20, self.21, self.22, self.23, self.24, new_item)
    }

    fn push_back(self, new_item: New) -> (pushed: (A, B, C, D, E, F, G, H, I, J, K, L, M, N, O, P, Q, R, S, T, U, V, W, X, Y, New)) {
        (self.0, self.1, self.2, self.3, self.4, self.5, self.6, self.7, self.8, self.9, self.10, self.11, self.12, self.13, self.14, self.15, self.16, self.17, self.18, self.19, self.20, self.21, self.22, self.23, self.24, new_item)
    }
}

impl<A> TupleListPopFront<A> for (A,) {
    type Popped = ();

    open spec fn without_front(self) -> (A, ()) {
        (self.0, ())
    }

    fn pop_front(self) -> (popped: (A, ())) {
        (self.0, ())
    }
}

impl<A> TupleListPopBack<A> for (A,) {
    type Popped = ();

    open spec fn without_back(self) -> (A, ()) {
        (self.0, ())
    }

    fn pop_back(self) -> (popped: (A, ())) {
        (self.0, ())
    }
}

impl<A, B> TupleListPopFront<A> for (A, B) {
    type Popped = (B,);

    open spec fn without_front(self) -> (A, (B,)) {
        (self.0, (self.1,))
    }

    fn pop_front(self) -> (popped: (A, (B,))) {
        (self.0, (self.1,))
    }
}

impl<A, B> TupleListPopBack<B> for (A, B) {
    type Popped = (A,);

    open spec fn without_back(self) -> (B, (A,)) {
        (self.1, (self.0,))
    }

    fn pop_back(self) -> (popped: (B, (A,))) {
        (self.1, (self.0,))
    }
}

impl<A, B, C> TupleListPopFront<A> for (A, B, C) {
    type Popped = (B, C);

    open spec fn without_front(self) -> (A, (B, C)) {
        (self.0, (self.1, self.2))
    }

    fn pop_front(self) -> (popped: (A, (B, C))) {
        (self.0, (self.1, self.2))
    }
}

impl<A, B, C> TupleListPopBack<C> for (A, B, C) {
    type Popped = (A, B);

    open spec fn without_back(self) -> (C, (A, B)) {
        (self.2, (self.0, self.1))
    }

    fn pop_back(self) -> (popped: (C, (A, B))) {
        (self.2, (self.0, self.1))
    }
}

impl<A, B, C, D> TupleListPopFront<A> for (A, B, C, D) {
    type Popped = (B, C, D);

    open spec fn without_front(self) -> (A, (B, C, D)) {
        (self.0, (self.1, self.2, self.3))
    }

    fn pop_front(self) -> (popped: (A, (B, C, D))) {
        (self.0, (self.1, self.2, self.3))
    }
}

impl<A, B, C, D> TupleListPopBack<D> for (A, B, C, D) {
    type Popped = (A, B, C);

    open spec fn without_back(self) -> (D, (A, B, C)) {
        (self.3, (self.0, self.1, self.2))
    }

    fn pop_back(self) -> (popped: (D, (A, B, C))) {
        (self.3, (self.0, self.1, self.2))
    }
}

impl<A, B, C, D, E> TupleListPopFront<A> for (A, B, C, D, E) {
    type Popped = (B, C, D, E);

    open spec fn without_front(self) -> (A, (B, C, D, E)) {
        (self.0, (self.1, self.2, self.3, self.4))
    }

    fn pop_front(self) -> (popped: (A, (B, C, D, E))) {
        (self.0, (self.1, self.2, self.3, self.4))
    }
}

impl<A, B, C, D, E> TupleListPopBack<E> for (A, B, C, D, E) {
    type Popped = (A, B, C, D);

    open spec fn without_back(self) -> (E, (A, B, C, D)) {
        (self.4, (self.0, self.1, self.2, self.3))
    }

    fn pop_back(self) -> (popped: (E, (A, B, C, D))) {
        (self.4, (self.0, self.1, self.2, self.3))
    }
}

impl<A, B, C, D, E, F> TupleListPopFront<A> for (A, B, C, D, E, F) {
    type Popped = (B, C, D, E, F);

    open spec fn without_front(self) -> (A, (B, C, D, E, F)) {
        (self.0, (self.1, self.2, self.3, self.4, self.5))
    }

    fn pop_front(self) -> (popped: (A, (B, C, D, E, F))) {
        (self.0, (self.1, self.2, self.3, self.4, self.5))
    }
}

impl<A, B, C, D, E, F> TupleListPopBack<F> for (A, B, C, D, E, F) {
    type Popped = (A, B, C, D, E);

    open spec fn without_back(self) -> (F, (A, B, C, D, E)) {
        (self.5, (self.0, self.1, self.2, self.3, self.4))
    }

    fn pop_back(self) -> (popped: (F, (A, B, C, D, E))) {
        (self.5, (self.0, self.1, self.2, self.3, self.4))
    }
}

impl<A, B, C, D, E, F, G> TupleListPopFront<A> for (A, B, C, D, E, F, G) {
    type Popped = (B, C, D, E, F, G);

    open spec fn without_front(self) -> (A, (B, C, D, E, F, G)) {
        (self.0, (self.1, self.2, self.3, self.4, self.5, self.6))
    }

    fn pop_front(self) -> (popped: (A, (B, C, D, E, F, G))) {
        (self.0, (self.1, self.2, self.3, self.4, self.5, self.6))
    }
}

impl<A, B, C, D, E, F, G> TupleListPopBack<G> for (A, B, C, D, E, F, G) {
    type Popped = (A, B, C, D, E, F);

    open spec fn without_back(self) -> (G, (A, B, C, D, E, F)) {
        (self.6, (self.0, self.1, self.2, self.3, self.4, self.5))
    }

    fn pop_back(self) -> (popped: (G, (A, B, C, D, E, F))) {
        (self.6, (self.0, self.1, self.2, self.3, self.4, self.5))
    }
}

impl<A, B, C, D, E, F, G, H> TupleListPopFront<A> for (A, B, C, D, E, F, G, H) {
    type Popped = (B, C, D, E, F, G, H);

    open spec fn without_front(self) -> (A, (B, C, D, E, F, G, H)) {
        (self.0, (self.1, self.2, self.3, self.4, self.5, self.6, self.7))
    }

    fn pop_front(self) -> (popped: (A, (B, C, D, E, F, G, H))) {
        (self.0, (self.1, self.2, self.3, self.4, self.5, self.6, self.7))
    }
}

impl<A, B, C, D, E, F, G, H> TupleListPopBack<H> for (A, B, C, D, E, F, G, H) {
    type Popped = (A, B, C, D, E, F, G);

    open spec fn without_back(self) -> (H, (A, B, C, D, E, F, G)) {
        (self.7, (self.0, self.1, self.2, self.3, self.4, self.5, self.6))
    }

    fn pop_back(self) -> (popped: (H, (A, B, C, D, E, F, G))) {
        (self.7, (self.0, self.1, self.2, self.3, self.4, self.5, self.6))
    }
}

impl<A, B, C, D, E, F, G, H, I> TupleListPopFront<A> for (A, B, C, D, E, F, G, H, I) {
    type Popped = (B, C, D, E, F, G, H, I);

    open spec fn without_front(self) -> (A, (B, C, D, E, F, G, H, I)) {
        (self.0, (self.1, self.2, self.3, self.4, self.5, self.6, self.7, self.8))
    }

    fn pop_front(self) -> (popped: (A, (B, C, D, E, F, G, H, I))) {
        (self.0, (self.1, self.2, self.3, self.4, self.5, self.6, self.7, self.8))
    }
}

impl<A, B, C, D, E, F, G, H, I> TupleListPopBack<I> for (A, B, C, D, E, F, G, H, I) {
    type Popped = (A, B, C, D, E, F, G, H);

    open spec fn without_back(self) -> (I, (A, B, C, D, E, F, G, H)) {
        (self.8, (self.0, self.1, self.2, self.3, self.4, self.5, self.6, self.7))
    }

    fn pop_back(self) -> (popped: (I, (A, B, C, D, E, F, G, H))) {
        (self.8, (self.0, self.1, self.2, self.3, self.4, self.5, self.6, self.7))
    }
}

impl<A, B, C, D, E, F, G, H, I, J> TupleListPopFront<A> for (A, B, C, D, E, F, G, H, I, J) {
    type Popped = (B, C, D, E, F, G, H, I, J);

    open spec fn without_front(self) -> (A, (B, C, D, E, F, G, H, I, J)) {
        (self.0, (self.1, self.2, self.3, self.4, self.5, self.6, self.7, self.8, self.9))
    }

    fn pop_front(self) -> (popped: (A, (B, C, D, E, F, G, H, I, J))) {
        (self.0, (self.1, self.2, self.3, self.4, self.5, self.6, self.7, self.8, self.9))
    }
}

impl<A, B, C, D, E, F, G, H, I, J> TupleListPopBack<J> for (A, B, C, D, E, F, G, H, I, J) {
    type Popped = (A, B, C, D, E, F, G, H, I);

    open spec fn without_back(self) -> (J, (A, B, C, D, E, F, G, H, I)) {
        (self.9, (self.0, self.1, self.2, self.3, self.4, self.5, self.6, self.7, self.8))
    }

    fn pop_back(self) -> (popped: (J, (A, B, C, D, E, F, G, H, I))) {
        (self.9, (self.0, self.1, self.2, self.3, self.4, self.5, self.6, self.7, self.8))
    }
}

impl<A, B, C, D, E, F, G, H, I, J, K> TupleListPopFront<A> for (A, B, C, D, E, F, G, H, I, J, K) {
    type Popped = (B, C, D, E, F, G, H, I, J, K);

    open spec fn without_front(self) -> (A, (B, C, D, E, F, G, H, I, J, K)) {
        (self.0, (self.1, self.2, self.3, self.4, self.5, self.6, self.7, self.8, self.9, self.10))
    }

    fn pop_front(self) -> (popped: (A, (B, C, D, E, F, G, H, I, J, K))) {
        (self.0, (self.1, self.2, self.3, self.4, self.5, self.6, self.7, self.8, self.9, self.10))
    }
}

impl<A, B, C, D, E, F, G, H, I, J, K> TupleListPopBack<K> for (A, B, C, D, E, F, G, H, I, J, K) {
    type Popped = (A, B, C, D, E, F, G, H, I, J);

    open spec fn without_back(self) -> (K, (A, B, C, D, E, F, G, H, I, J)) {
        (self.10, (self.0, self.1, self.2, self.3, self.4, self.5, self.6, self.7, self.8, self.9))
    }

    fn pop_back(self) -> (popped: (K, (A, B, C, D, E, F, G, H, I, J))) {
        (self.10, (self.0, self.1, self.2, self.3, self.4, self.5, self.6, self.7, self.8, self.9))
    }
}

impl<A, B, C, D, E, F, G, H, I, J, K, L> TupleListPopFront<A> for (A, B, C, D, E, F, G, H, I, J, K, L) {
    type Popped = (B, C, D, E, F, G, H, I, J, K, L);

    open spec fn without_front(self) -> (A, (B, C, D, E, F, G, H, I, J, K, L)) {
        (self.0, (self.1, self.2, self.3, self.4, self.5, self.6, self.7, self.8, self.9, self.10, self.11))
    }

    fn pop_front(self) -> (popped: (A, (B, C, D, E, F, G, H, I, J, K, L))) {
        (self.0, (self.1, self.2, self.3, self.4, self.5, self.6, self.7, self.8, self.9, self.10, self.11))
    }
}

impl<A, B, C, D, E, F, G, H, I, J, K, L> TupleListPopBack<L> for (A, B, C, D, E, F, G, H, I, J, K, L) {
    type Popped = (A, B, C, D, E, F, G, H, I, J, K);

    open spec fn without_back(self) -> (L, (A, B, C, D, E, F, G, H, I, J, K)) {
        (self.11, (self.0, self.1, self.2, self.3, self.4, self.5, self.6, self.7, self.8, self.9, self.10))
    }

    fn pop_back(self) -> (popped: (L, (A, B, C, D, E, F, G, H, I, J, K))) {
        (self.11, (self.0, self.1, self.2, self.3, self.4, self.5, self.6, self.7, self.8, self.9, self.10))
    }
}

impl<A, B, C, D, E, F, G, H, I, J, K, L, M> TupleListPopFront<A> for (A, B, C, D, E, F, G, H, I, J, K, L, M) {
    type Popped = (B, C, D, E, F, G, H, I, J, K, L, M);

    open spec fn without_front(self) -> (A, (B, C, D, E, F, G, H, I, J, K, L, M)) {
        (self.0, (self.1, self.2, self.3, self.4, self.5, self.6, self.7, self.8, self.9, self.10, self.11, self.12))
    }

    fn pop_front(self) -> (popped: (A, (B, C, D, E, F, G, H, I, J, K, L, M))) {
        (self.0, (self.1, self.2, self.3, self.4, self.5, self.6, self.7, self.8, self.9, self.10, self.11, self.12))
    }
}

impl<A, B, C, D, E, F, G, H, I, J, K, L, M> TupleListPopBack<M> for (A, B, C, D, E, F, G, H, I, J, K, L, M) {
    type Popped = (A, B, C, D, E, F, G, H, I, J, K, L);

    open spec fn without_back(self) -> (M, (A, B, C, D, E, F, G, H, I, J, K, L)) {
        (self.12, (self.0, self.1, self.2, self.3, self.4, self.5, self.6, self.7, self.8, self.9, self.10, self.11))
    }

    fn pop_back(self) -> (popped: (M, (A, B, C, D, E, F, G, H, I, J, K, L))) {
        (self.12, (self.0, self.1, self.2, self.3, self.4, self.5, self.6, self.7, self.8, self.9, self.10, self.11))
    }
}

impl<A, B, C, D, E, F, G, H, I, J, K, L, M, N> TupleListPopFront<A> for (A, B, C, D, E, F, G, H, I, J, K, L, M, N) {
    type Popped = (B, C, D, E, F, G, H, I, J, K, L, M, N);

    open spec fn without_front(self) -> (A, (B, C, D, E, F, G, H, I, J, K, L, M, N)) {
        (self.0, (self.1, self.2, self.3, self.4, self.5, self.6, self.7, self.8, self.9, self.10, self.11, self.12, self.13))
    }

    fn pop_front(self) -> (popped: (A, (B, C, D, E, F, G, H, I, J, K, L, M, N))) {
        (self.0, (self.1, self.2, self.3, self.4, self.5, self.6, self.7, self.8, self.9, self.10, self.11, self.12, self.13))
    }
}

impl<A, B, C, D, E, F, G, H, I, J, K, L, M, N> TupleListPopBack<N> for (A, B, C, D, E, F, G, H, I, J, K, L, M, N) {
    type Popped = (A, B, C, D, E, F, G, H, I, J, K, L, M);

    open spec fn without_back(self) -> (N, (A, B, C, D, E, F, G, H, I, J, K, L, M)) {
        (self.13, (self.0, self.1, self.2, self.3, self.4, self.5, self.6, self.7, self.8, self.9, self.10, self.11, self.12))
    }

    fn pop_back(self) -> (popped: (N, (A, B, C, D, E, F, G, H, I, J, K, L, M))) {
        (self.13, (self.0, self.1, self.2, self.3, self.4, self.5, self.6, self.7, self.8, self.9, self.10, self.11, self.12))
    }
}

impl<A, B, C, D, E, F, G, H, I, J, K, L, M, N, O> TupleListPopFront<A> for (A, B, C, D, E, F, G, H, I, J, K, L, M, N, O) {
    type Popped = (B, C, D, E, F, G, H, I, J, K, L, M, N, O);

    open spec fn without_front(self) -> (A, (B, C, D, E, F, G, H, I, J, K, L, M, N, O)) {
        (self.0, (self.1, self.2, self.3, self.4, self.5, self.6, self.7, self.8, self.9, self.10, self.11, self.12, self.13, self.14))
    }

    fn pop_front(self) -> (popped: (A, (B, C, D, E, F, G, H, I, J, K, L, M, N, O))) {
        (self.0, (self.1, self.2, self.3, self.4, self.5, self.6, self.7, self.8, self.9, self.10, self.11, self.12, self.13, self.14))
    }
}

impl<A, B, C, D, E, F, G, H, I, J, K, L, M, N, O> TupleListPopBack<O> for (A, B, C, D, E, F, G, H, I, J, K, L, M, N, O) {
    type Popped = (A, B, C, D, E, F, G, H, I, J, K, L, M, N);

    open spec fn without_back(self) -> (O, (A, B, C, D, E, F, G, H, I, J, K, L, M, N)) {
        (self.14, (self.0, self.1, self.2, self.3, self.4, self.5, self.6, self.7, self.8, self.9, self.10, self.11, self.12, self.13))
    }

    fn pop_back(self) -> (popped: (O, (A, B, C, D, E, F, G, H, I, J, K, L, M, N))) {
        (self.14, (self.0, self.1, self.2, self.3, self.4, self.5, self.6, self.7, self.8, self.9, self.10, self.11, self.12, self.13))
    }
}

impl<A, B, C, D, E, F, G, H, I, J, K, L, M, N, O, P> TupleListPopFront<A> for (A, B, C, D, E, F, G, H, I, J, K, L, M, N, O, P) {
    type Popped = (B, C, D, E, F, G, H, I, J, K, L, M, N, O, P);

    open spec fn without_front(self) -> (A, (B, C, D, E, F, G, H, I, J, K, L, M, N, O, P)) {
        (self.0, (self.1, self.2, self.3, self.4, self.5, self.6, self.7, self.8, self.9, self.10, self.11, self.12, self.13, self.14, self.15))
    }

    fn pop_front(self) -> (popped: (A, (B, C, D, E, F, G, H, I, J, K, L, M, N, O, P))) {
        (self.0, (self.1, self.2, self.3, self.4, self.5, self.6, self.7, self.8, self.9, self.10, self.11, self.12, self.13, self.14, self.15))
    }
}

impl<A, B, C, D, E, F, G, H, I, J, K, L, M, N, O, P> TupleListPopBack<P> for (A, B, C, D, E, F, G, H, I, J, K, L, M, N, O, P) {
    type Popped = (A, B, C, D, E, F, G, H, I, J, K, L, M, N, O);

    open spec fn without_back(self) -> (P, (A, B, C, D, E, F, G, H, I, J, K, L, M, N, O)) {
        (self.15, (self.0, self.1, self.2, self.3, self.4, self.5, self.6, self.7, self.8, self.9, self.10, self.11, self.12, self.13, self.14))
    }

    fn pop_back(self) -> (popped: (P, (A, B, C, D, E, F, G, H, I, J, K, L, M, N, O))) {
        (self.15, (self.0, self.1, self.2, self.3, self.4, self.5, self.6, self.7, self.8, self.9, self.10, self.11, self.12, self.13, self.14))
    }
}

impl<A, B, C, D, E, F, G, H, I, J, K, L, M, N, O, P, Q> TupleListPopFront<A> for (A, B, C, D, E, F, G, H, I, J, K, L, M, N, O, P, Q) {
    type Popped = (B, C, D, E, F, G, H, I, J, K, L, M, N, O, P, Q);

    open spec fn without_front(self) -> (A, (B, C, D, E, F, G, H, I, J, K, L, M, N, O, P, Q)) {
        (self.0, (self.1, self.2, self.3, self.4, self.5, self.6, self.7, self.8, self.9, self.10, self.11, self.12, self.13, self.14, self.15, self.16))
    }

    fn pop_front(self) -> (popped: (A, (B, C, D, E, F, G, H, I, J, K, L, M, N, O, P, Q))) {
        (self.0, (self.1, self.2, self.3, self.4, self.5, self.6, self.7, self.8, self.9, self.10, self.11, self.12, self.13, self.14, self.15, self.16))
    }
}

impl<A, B, C, D, E, F, G, H, I, J, K, L, M, N, O, P, Q> TupleListPopBack<Q> for (A, B, C, D, E, F, G, H, I, J, K, L, M, N, O, P, Q) {
    type Popped = (A, B, C, D, E, F, G, H, I, J, K, L, M, N, O, P);

    open spec fn without_back(self) -> (Q, (A, B, C, D, E, F, G, H, I, J, K, L, M, N, O, P)) {
        (self.16, (self.0, self.1, self.2, self.3, self.4, self.5, self.6, self.7, self.8, self.9, self.10, self.11, self.12, self.13, self.14, self.15))
    }

    fn pop_back(self) -> (popped: (Q, (A, B, C, D, E, F, G, H, I, J, K, L, M, N, O, P))) {
        (self.16, (self.0, self.1, self.2, self.3, self.4, self.5, self.6, self.7, self.8, self.9, self.10, self.11, self.12, self.13, self.14, self.15))
    }
}

impl<A, B, C, D, E, F, G, H, I, J, K, L, M, N, O, P, Q, R> TupleListPopFront<A> for (A, B, C, D, E, F, G, H, I, J, K, L, M, N, O, P, Q, R) {
    type Popped = (B, C, D, E, F, G, H, I, J, K, L, M, N, O, P, Q, R);

    open spec fn without_front(self) -> (A, (B, C, D, E, F, G, H, I, J, K, L, M, N, O, P, Q, R)) {
        (self.0, (self.1, self.2, self.3, self.4, self.5, self.6, self.7, self.8, self.9, self.10, self.11, self.12, self.13, self.14, self.15, self.16, self.17))
    }

    fn pop_front(self) -> (popped: (A, (B, C, D, E, F, G, H, I, J, K, L, M, N, O, P, Q, R))) {
        (self.0, (self.1, self.2, self.3, self.4, self.5, self.6, self.7, self.8, self.9, self.10, self.11, self.12, self.13, self.14, self.15, self.16, self.17))
    }
}

impl<A, B, C, D, E, F, G, H, I, J, K, L, M, N, O, P, Q, R> TupleListPopBack<R> for (A, B, C, D, E, F, G, H, I, J, K, L, M, N, O, P, Q, R) {
    type Popped = (A, B, C, D, E, F, G, H, I, J, K, L, M, N, O, P, Q);

    open spec fn without_back(self) -> (R, (A, B, C, D, E, F, G, H, I, J, K, L, M, N, O, P, Q)) {
        (self.17, (self.0, self.1, self.2, self.3, self.4, self.5, self.6, self.7, self.8, self.9, self.10, self.11, self.12, self.13, self.14, self.15, self.16))
    }

    fn pop_back(self) -> (popped: (R, (A, B, C, D, E, F, G, H, I, J, K, L, M, N, O, P, Q))) {
        (self.17, (self.0, self.1, self.2, self.3, self.4, self.5, self.6, self.7, self.8, self.9, self.10, self.11, self.12, self.13, self.14, self.15, self.16))
    }
}

impl<A, B, C, D, E, F, G, H, I, J, K, L, M, N, O, P, Q, R, S> TupleListPopFront<A> for (A, B, C, D, E, F, G, H, I, J, K, L, M, N, O, P, Q, R, S) {
    type Popped = (B, C, D, E, F, G, H, I, J, K, L, M, N, O, P, Q, R, S);

    open spec fn without_front(self) -> (A, (B, C, D, E, F, G, H, I, J, K, L, M, N, O, P, Q, R, S)) {
        (self.0, (self.1, self.2, self.3, self.4, self.5, self.6, self.7, self.8, self.9, self.10, self.11, self.12, self.13, self.14, self.15, self.16, self.17, self.18))
    }

    fn pop_front(self) -> (popped: (A, (B, C, D, E, F, G, H, I, J, K, L, M, N, O, P, Q, R, S))) {
        (self.0, (self.1, self.2, self.3, self.4, self.5, self.6, self.7, self.8, self.9, self.10, self.11, self.12, self.13, self.14, self.15, self.16, self.17, self.18))
    }
}

impl<A, B, C, D, E, F, G, H, I, J, K, L, M, N, O, P, Q, R, S> TupleListPopBack<S> for (A, B, C, D, E, F, G, H, I, J, K, L, M, N, O, P, Q, R, S) {
    type Popped = (A, B, C, D, E, F, G, H, I, J, K, L, M, N, O, P, Q, R);

    open spec fn without_back(self) -> (S, (A, B, C, D, E, F, G, H, I, J, K, L, M, N, O, P, Q, R)) {
        (self.18, (self.0, self.1, self.2, self.3, self.4, self.5, self.6, self.7, self.8, self.9, self.10, self.11, self.12, self.13, self.14, self.15, self.16, self.17))
    }

    fn pop_back(self) -> (popped: (S, (A, B, C, D, E, F, G, H, I, J, K, L, M, N, O, P, Q, R))) {
        (self.18, (self.0, self.1, self.2, self.3, self.4, self.5, self.6, self.7, self.8, self.9, self.10, self.11, self.12, self.13, self.14, self.15, self.16, self.17))
    }
}

impl<A, B, C, D, E, F, G, H, I, J, K, L, M, N, O, P, Q, R, S, T> TupleListPopFront<A> for (A, B, C, D, E, F, G, H, I, J, K, L, M, N, O, P, Q, R, S, T) {
    type Popped = (B, C, D, E, F, G, H, I, J, K, L, M, N, O, P, Q, R, S, T);

    open spec fn without_front(self) -> (A, (B, C, D, E, F, G, H, I, J, K, L, M, N, O, P, Q, R, S, T)) {
        (self.0, (self.1, self.2, self.3, self.4, self.5, self.6, self.7, self.8, self.9, self.10, self.11, self.12, self.13, self.14, self.15, self.16, self.17, self.18, self.19))
    }

    fn pop_front(self) -> (popped: (A, (B, C, D, E, F, G, H, I, J, K, L, M, N, O, P, Q, R, S, T))) {
        (self.0, (self.1, self.2, self.3, self.4, self.5, self.6, self.7, self.8, self.9, self.10, self.11, self.12, self.13, self.14, self.15, self.16, self.17, self.18, self.19))
    }
}

impl<A, B, C, D, E, F, G, H, I, J, K, L, M, N, O, P, Q, R, S, T> TupleListPopBack<T> for (A, B, C, D, E, F, G, H, I, J, K, L, M, N, O, P, Q, R, S, T) {
    type Popped = (A, B, C, D, E, F, G, H, I, J, K, L, M, N, O, P, Q, R, S);

    open spec fn without_back(self) -> (T, (A, B, C, D, E, F, G, H, I, J, K, L, M, N, O, P, Q, R, S)) {
        (self.19, (self.0, self.1, self.2, self.3, self.4, self.5, self.6, self.7, self.8, self.9, self.10, self.11, self.12, self.13, self.14, self.15, self.16, self.17, self.18))
    }

    fn pop_back(self) -> (popped: (T, (A, B, C, D, E, F, G, H, I, J, K, L, M, N, O, P, Q, R, S))) {
        (self.19, (self.0, self.1, self.2, self.3, self.4, self.5, self.6, self.7, self.8, self.9, self.10, self.11, self.12, self.13, self.14, self.15, self.16, self.17, self.18))
    }
}

impl<A, B, C, D, E, F, G, H, I, J, K, L, M, N, O, P, Q, R, S, T, U> TupleListPopFront<A> for (A, B, C, D, E, F, G, H, I, J, K, L, M, N, O, P, Q, R, S, T, U) {
    type Popped = (B, C, D, E, F, G, H, I, J, K, L, M, N, O, P, Q, R, S, T, U);

    open spec fn without_front(self) -> (A, (B, C, D, E, F, G, H, I, J, K, L, M, N, O, P, Q, R, S, T, U)) {
        (self.0, (self.1, self.2, self.3, self.4, self.5, self.6, self.7, self.8, self.9, self.10, self.11, self.12, self.13, self.14, self.15, self.16, self.17, self.18, self.19, self.20))
    }

    fn pop_front(self) -> (popped: (A, (B, C, D, E, F, G, H, I, J, K, L, M, N, O, P, Q, R, S, T, U))) {
        (self.0, (self.1, self.2, self.3, self.4, self.5, self.6, self.7, self.8, self.9, self.10, self.11, self.12, self.13, self.14, self.15, self.16, self.17, self.18, self.19, self.20))
    }
}

impl<A, B, C, D, E, F, G, H, I, J, K, L, M, N, O, P, Q, R, S, T, U> TupleListPopBack<U> for (A, B, C, D, E, F, G, H, I, J, K, L, M, N, O, P, Q, R, S, T, U) {
    type Popped = (A, B, C, D, E, F, G, H, I, J, K, L, M, N, O, P, Q, R, S, T);

    open spec fn without_back(self) -> (U, (A, B, C, D, E, F, G, H, I, J, K, L, M, N, O, P, Q, R, S, T)) {
        (self.20, (self.0, self.1, self.2, self.3, self.4, self.5, self.6, self.7, self.8, self.9, self.10, self.11, self.12, self.13, self.14, self.15, self.16, self.17, self.18, self.19))
    }

    fn pop_back(self) -> (popped: (U, (A, B, C, D, E, F, G, H, I, J, K, L, M, N, O, P, Q, R, S, T))) {
        (self.20, (self.0, self.1, self.2, self.3, self.4, self.5, self.6, self.7, self.8, self.9, self.10, self.11, self.12, self.13, self.14, self.15, self.16, self.17, self.18, self.19))
    }
}

impl<A, B, C, D, E, F, G, H, I, J, K, L, M, N, O, P, Q, R, S, T, U, V> TupleListPopFront<A> for (A, B, C, D, E, F, G, H, I, J, K, L, M, N, O, P, Q, R, S, T, U, V) {
    type Popped = (B, C, D, E, F, G, H, I, J, K, L, M, N, O, P, Q, R, S, T, U, V);

    open spec fn without_front(self) -> (A, (B, C, D, E, F, G, H, I, J, K, L, M, N, O, P, Q, R, S, T, U, V)) {
        (self.0, (self.1, self.2, self.3, self.4, self.5, self.6, self.7, self.8, self.9, self.10, self.11, self.12, self.13, self.14, self.15, self.16, self.17, self.18, self.19, self.20, self.21))
    }

    fn pop_front(self) -> (popped: (A, (B, C, D, E, F, G, H, I, J, K, L, M, N, O, P, Q, R, S, T, U, V))) {
        (self.0, (self.1, self.2, self.3, self.4, self.5, self.6, self.7, self.8, self.9, self.10, self.11, self.12, self.13, self.14, self.15, self.16, self.17, self.18, self.19, self.20, self.21))
    }
}

impl<A, B, C, D, E, F, G, H, I, J, K, L, M, N, O, P, Q, R, S, T, U, V> TupleListPopBack<V> for (A, B, C, D, E, F, G, H, I, J, K, L, M, N, O, P, Q, R, S, T, U, V) {
    type Popped = (A, B, C, D, E, F, G, H, I, J, K, L, M, N, O, P, Q, R, S, T, U);

    open spec fn without_back(self) -> (V, (A, B, C, D, E, F, G, H, I, J, K, L, M, N, O, P, Q, R, S, T, U)) {
        (self.21, (self.0, self.1, self.2, self.3, self.4, self.5, self.6, self.7, self.8, self.9, self.10, self.11, self.12, self.13, self.14, self.15, self.16, self.17, self.18, self.19, self.20))
    }

    fn pop_back(self) -> (popped: (V, (A, B, C, D, E, F, G, H, I, J, K, L, M, N, O, P, Q, R, S, T, U))) {
        (self.21, (self.0, self.1, self.2, self.3, self.4, self.5, self.6, self.7, self.8, self.9, self.10, self.11, self.12, self.13, self.14, self.15, self.16, self.17, self.18, self.19, self.20))
    }
}

impl<A, B, C, D, E, F, G, H, I, J, K, L, M, N, O, P, Q, R, S, T, U, V, W> TupleListPopFront<A> for (A, B, C, D, E, F, G, H, I, J, K, L, M, N, O, P, Q, R, S, T, U, V, W) {
    type Popped = (B, C, D, E, F, G, H, I, J, K, L, M, N, O, P, Q, R, S, T, U, V, W);

    open spec fn without_front(self) -> (A, (B, C, D, E, F, G, H, I, J, K, L, M, N, O, P, Q, R, S, T, U, V, W)) {
        (self.0, (self.1, self.2, self.3, self.4, self.5, self.6, self.7, self.8, self.9, self.10, self.11, self.12, self.13, self.14, self.15, self.16, self.17, self.18, self.19, self.20, self.21, self.22))
    }

    fn pop_front(self) -> (popped: (A, (B, C, D, E, F, G, H, I, J, K, L, M, N, O, P, Q, R, S, T, U, V, W))) {
        (self.0, (self.1, self.2, self.3, self.4, self.5, self.6, self.7, self.8, self.9, self.10, self.11, self.12, self.13, self.14, self.15, self.16, self.17, self.18, self.19, self.20, self.21, self.22))
    }
}

impl<A, B, C, D, E, F, G, H, I, J, K, L, M, N, O, P, Q, R, S, T, U, V, W> TupleListPopBack<W> for (A, B, C, D, E, F, G, H, I, J, K, L, M, N, O, P, Q, R, S, T, U, V, W) {
    type Popped = (A, B, C, D, E, F, G, H, I, J, K, L, M, N, O, P, Q, R, S, T, U, V);

    open spec fn without_back(self) -> (W, (A, B, C, D, E, F, G, H, I, J, K, L, M, N, O, P, Q, R, S, T, U, V)) {
        (self.22, (self.0, self.1, self.2, self.3, self.4, self.5, self.6, self.7, self.8, self.9, self.10, self.11, self.12, self.13, self.14, self.15, self.16, self.17, self.18, self.19, self.20, self.21))
    }

    fn pop_back(self) -> (popped: (W, (A, B, C, D, E, F, G, H, I, J, K, L, M, N, O, P, Q, R, S, T, U, V))) {
        (self.22, (self.0, self.1, self.2, self.3, self.4, self.5, self.6, self.7, self.8, self.9, self.10, self.11, self.12, self.13, self.14, self.15, self.16, self.17, self.18, self.19, self.20, self.21))
    }
}

impl<A, B, C, D, E, F, G, H, I, J, K, L, M, N, O, P, Q, R, S, T, U, V, W, X> TupleListPopFront<A> for (A, B, C, D, E, F, G, H, I, J, K, L, M, N, O, P, Q, R, S, T, U, V, W, X) {
    type Popped = (B, C, D, E, F, G, H, I, J, K, L, M, N, O, P, Q, R, S, T, U, V, W, X);

    open spec fn without_front(self) -> (A, (B, C, D, E, F, G, H, I, J, K, L, M, N, O, P, Q, R, S, T, U, V, W, X)) {
        (self.0, (self.1, self.2, self.3, self.4, self.5, self.6, self.7, self.8, self.9, self.10, self.11, self.12, self.13, self.14, self.15, self.16, self.17, self.18, self.19, self.20, self.21, self.22, self.23))
    }

    fn pop_front(self) -> (popped: (A, (B, C, D, E, F, G, H, I, J, K, L, M, N, O, P, Q, R, S, T, U, V, W, X))) {
        (self.0, (self.1, self.2, self.3, self.4, self.5, self.6, self.7, self.8, self.9, self.10, self.11, self.12, self.13, self.14, self.15, self.16, self.17, self.18, self.19, self.20, self.21, self.22, self.23))
    }
}

impl<A, B, C, D, E, F, G, H, I, J, K, L, M, N, O, P, Q, R, S, T, U, V, W, X> TupleListPopBack<X> for (A, B, C, D, E, F, G, H, I, J, K, L, M, N, O, P, Q, R, S, T, U, V, W, X) {
    type Popped = (A, B, C, D, E, F, G, H, I, J, K, L, M, N, O, P, Q, R, S, T, U, V, W);

    open spec fn without_back(self) -> (X, (A, B, C, D, E, F, G, H, I, J, K, L, M, N, O, P, Q, R, S, T, U, V, W)) {
        (self.23, (self.0, self.1, self.2, self.3, self.4, self.5, self.6, self.7, self.8, self.9, self.10, self.11, self.12, self.13, self.14, self.15, self.16, self.17, self.18, self.19, self.20, self.21, self.22))
    }

    fn pop_back(self) -> (popped: (X, (A, B, C, D, E, F, G, H, I, J, K, L, M, N, O, P, Q, R, S, T, U, V, W))) {
        (self.23, (self.0, self.1, self.2, self.3, self.4, self.5, self.6, self.7, self.8, self.9, self.10, self.11, self.12, self.13, self.14, self.15, self.16, self.17, self.18, self.19, self.20, self.21, self.22))
    }
}

impl<A, B, C, D, E, F, G, H, I, J, K, L, M, N, O, P, Q, R, S, T, U, V, W, X, Y> TupleListPopFront<A> for (A, B, C, D, E, F, G, H, I, J, K, L, M, N, O, P, Q, R, S, T, U, V, W, X, Y) {
    type Popped = (B, C, D, E, F, G, H, I, J, K, L, M, N, O, P, Q, R, S, T, U, V, W, X, Y);

    open spec fn without_front(self) -> (A, (B, C, D, E, F, G, H, I, J, K, L, M, N, O, P, Q, R, S, T, U, V, W, X, Y)) {
        (self.0, (self.1, self.2, self.3, self.4, self.5, self.6, self.7, self.8, self.9, self.10, self.11, self.12, self.13, self.14, self.15, self.16, self.17, self.18, self.19, self.20, self.21, self.22, self.23, self.24))
    }

    fn pop_front(self) -> (popped: (A, (B, C, D, E, F, G, H, I, J, K, L, M, N, O, P, Q, R, S, T, U, V, W, X, Y))) {
        (self.0, (self.1, self.2, self.3, self.4, self.5, self.6, self.7, self.8, self.9, self.10, self.11, self.12, self.13, self.14, self.15, self.16, self.17, self.18, self.19, self.20, self.21, self.22, self.23, self.24))
    }
}

impl<A, B, C, D, E, F, G, H, I, J, K, L, M, N, O, P, Q, R, S, T, U, V, W, X, Y> TupleListPopBack<Y> for (A, B, C, D, E, F, G, H, I, J, K, L, M, N, O, P, Q, R, S, T, U, V, W, X, Y) {
    type Popped = (A, B, C, D, E, F, G, H, I, J, K, L, M, N, O, P, Q, R, S, T, U, V, W, X);

    open spec fn without_back(self) -> (Y, (A, B, C, D, E, F, G, H, I, J, K, L, M, N, O, P, Q, R, S, T, U, V, W, X)) {
        (self.24, (self.0, self.1, self.2, self.3, self.4, self.5, self.6, self.7, self.8, self.9, self.10, self.11, self.12, self.13, self.14, self.15, self.16, self.17, self.18, self.19, self.20, self.21, self.22, self.23))
    }

    fn pop_back(self) -> (popped: (Y, (A, B, C, D, E, F, G, H, I, J, K, L, M, N, O, P, Q, R, S, T, U, V, W, X))) {
        (self.24, (self.0, self.1, self.2, self.3, self.4, self.5, self.6, self.7, self.8, self.9, self.10, self.11, self.12, self.13, self.14, self.15, self.16, self.17, self.18, self.19, self.20, self.21, self.22, self.23))
    }
}

impl<A, B, C, D, E, F, G, H, I, J, K, L, M, N, O, P, Q, R, S, T, U, V, W, X, Y, Z> TupleListPopFront<A> for (A, B, C, D, E, F, G, H, I, J, K, L, M, N, O, P, Q, R, S, T, U, V, W, X, Y, Z) {
    type Popped = (B, C, D, E, F, G, H, I, J, K, L, M, N, O, P, Q, R, S, T, U, V, W, X, Y, Z);

    open spec fn without_front(self) -> (A, (B, C, D, E, F, G, H, I, J, K, L, M, N, O, P, Q, R, S, T, U, V, W, X, Y, Z)) {
        (self.0, (self.1, self.2, self.3, self.4, self.5, self.6, self.7, self.8, self.9, self.10, self.11, self.12, self.13, self.14, self.15, self.16, self.17, self.18, self.19, self.20, self.21, self.22, self.23, self.24, self.25))
    }

    fn pop_front(self) -> (popped: (A, (B, C, D, E, F, G, H, I, J, K, L, M, N, O, P, Q, R, S, T, U, V, W, X, Y, Z))) {
        (self.0, (self.1, self.2, self.3, self.4, self.5, self.6, self.7, self.8, self.9, self.10, self.11, self.12, self.13, self.14, self.15, self.16, self.17, self.18, self.19, self.20, self.21, self.22, self.23, self.24, self.25))
    }
}

impl<A, B, C, D, E, F, G, H, I, J, K, L, M, N, O, P, Q, R, S, T, U, V, W, X, Y, Z> TupleListPopBack<Z> for (A, B, C, D, E, F, G, H, I, J, K, L, M, N, O, P, Q, R, S, T, U, V, W, X, Y, Z) {
    type Popped = (A, B, C, D, E, F, G, H, I, J, K, L, M, N, O, P, Q, R, S, T, U, V, W, X, Y);

    open spec fn without_back(self) -> (Z, (A, B, C, D, E, F, G, H, I, J, K, L, M, N, O, P, Q, R, S, T, U, V, W, X, Y)) {
        (self.25, (self.0, self.1, self.2, self.3, self.4, self.5, self.6, self.7, self.8, self.9, self.10, self.11, self.12, self.13, self.14, self.15, self.16, self.17, self.18, self.19, self.20, self.21, self.22, self.23, self.24))
    }

    fn pop_back(self) -> (popped: (Z, (A, B, C, D, E, F, G, H, I, J, K, L, M, N, O, P, Q, R, S, T, U, V, W, X, Y))) {
        (self.25, (self.0, self.1, self.2, self.3, self.4, self.5, self.6, self.7, self.8, self.9, self.10, self.11, self.12, self.13, self.14, self.15, self.16, self.17, self.18, self.19, self.20, self.21, self.22, self.23, self.24))
    }
}

} // verus!
