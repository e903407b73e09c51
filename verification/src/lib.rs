//! A scene hierarchy over entities, with transforms that follow it.
//!
//! Entities point to their parents. The library derives the child lists
//! from the parent pointers, deletes what hangs below a deleted entity,
//! computes the local transform of every entity from its position and
//! rotation, and carries the world transforms from the roots down.
//!
//! - [`ecs`] holds the component store and the buffer of deferred
//!   operations that the stages work on.
//! - [`transform`] holds the components of the hierarchy, the stages, what
//!   each stage does stated over the content of the store, and the laws that
//!   hold of them.
//! - [`base`] holds what schedules the stages and keeps the frame rate:
//!   system orders, schedules, a bounded queue, timers.
//! - [`window`] holds the description of the window systems.
//!
//! The store is generic in the types of positions, rotations and transform
//! matrices, and the stages take the functions that make a matrix of a
//! position and a rotation and the product of two matrices: the arithmetic
//! is the caller's, the bookkeeping is proved here.

pub mod base;
pub mod ecs;
pub mod transform;
pub mod window;
