//! Operations delegated to another node.

use vstd::prelude::*;

use crate::types::Container;

verus! {

/// Operations a constrained device can delegate to a full node.
#[derive(Clone, Debug)]
pub enum DelegationCommands {
    /// Request a signed hello / discovery payload.
    Hello,
    /// Register a service from its page.
    Register(Container),
}

} // verus!
