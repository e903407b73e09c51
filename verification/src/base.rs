//! Core functionality: the orders and schedules of systems, a bounded
//! queue, timers, frame rate keeping and tuples as lists.

pub mod frame_rate;
pub mod sized_queue;
pub mod systems;
pub mod time;
pub mod tuple_list;
