//! Utility types for building systems and schedules: the order of systems,
//! the schedule that the orders give, and the attributes that describe a
//! system.

pub mod desc;
pub mod entry;
pub mod order;
pub mod schedule;
pub mod types;

pub use self::order::{SystemOrder, SystemPriority};
