//! Kinds of systems.

use vstd::prelude::*;

verus! {

/// Marks a kind of system; it cannot be implemented outside this crate.
pub trait Seal {

}

/// System type of systems that can be run in parallel.
#[derive(Clone, Copy, Debug, Default, PartialEq, Eq, Hash)]
pub struct Parallel;

impl Seal for Parallel {

}

/// System type of systems that should be run on the main thread.
#[derive(Clone, Copy, Debug, Default, PartialEq, Eq, Hash)]
pub struct ThreadLocal;

impl Seal for ThreadLocal {

}

/// System type of systems that should be run on the main thread, given as
/// a closure.
#[derive(Clone, Copy, Debug, Default, PartialEq, Eq, Hash)]
pub struct ThreadLocalFn;

impl Seal for ThreadLocalFn {

}

} // verus!
