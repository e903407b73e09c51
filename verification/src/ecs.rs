//! The component store that the hierarchy and transform stages work on.

pub mod command;
pub mod entity;
pub mod view;
pub mod world;

pub use self::command::{Command, CommandBuffer, CommandView, ComponentKind};
pub use self::entity::Entity;
pub use self::view::{EntityView, WorldView, Written};
pub use self::world::World;
