//! Transform and hierarchy management.
//!
//! - [`components`] are the components of the hierarchy.
//! - [`hierarchy`], [`local`] and [`composition`] state what the three kinds
//!   of stage do, over the content of the store.
//! - [`systems`] are the stages themselves, the bundle that schedules them
//!   and what runs a schedule.
//! - [`laws`] and [`schedule_law`] prove what holds of every run.

pub mod components;
pub mod composition;
pub mod hierarchy;
pub mod laws;
pub mod local;
pub mod schedule_law;
pub mod seq_facts;
pub mod systems;
