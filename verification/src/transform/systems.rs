//! The stages that keep the hierarchy and the transforms up to date.
//!
//! In one update cycle the stages run in this order, with the deferred
//! operations applied where it says *flush*:
//!
//! 1. the user writes positions, rotations and parents; *flush*
//! 2. hierarchy synchronization and the two local transform updates, in any
//!    order; *flush*
//! 3. the hierarchical transform update; *flush*
//! 4. whoever reads the world transforms

pub mod bundle;
pub mod executor;
pub mod hierarchical_transform_update;
pub mod hierarchy_sync;
pub mod pipeline;
pub mod simple_transform_update;
