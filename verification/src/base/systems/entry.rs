//! What stands in a schedule besides systems.

use vstd::prelude::*;
use crate::base::systems::order::SystemOrder;

verus! {

/// Schedule entry descriptor that asks for the deferred operations to be
/// applied at the given order.
#[derive(Clone, Copy, Debug)]
pub struct CmdBufFlush(pub SystemOrder);

impl CmdBufFlush {
    /// Create a new instance.
    pub fn new(order: SystemOrder) -> (f: Self)
        ensures
            f.0 == order,
    {
        CmdBufFlush(order)
    }
}

} // verus!
