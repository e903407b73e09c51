//! Components used for tracking the hierarchy.
//!
//! Only `Parent` is meant to be written by users; `PreviousParent` and
//! `Children` are kept by the hierarchy synchronizer.

pub mod children;
pub mod parent;
pub mod previous_parent;

pub use self::children::Children;
pub use self::parent::Parent;
pub use self::previous_parent::PreviousParent;
