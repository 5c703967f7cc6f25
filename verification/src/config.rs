//! Runtime daemon configuration.

use vstd::prelude::*;

use crate::types::Address;

verus! {

/// Configuration operations a client can request of the daemon.
#[derive(Clone, Debug)]
pub enum ConfigCommands {
    /// Register an external address for use by the daemon.
    AddAddress(SocketAddress),
    /// De-register an external address for the daemon.
    RemoveAddress(SocketAddress),
}

/// An external endpoint of the daemon.
#[derive(Clone, Debug)]
pub struct SocketAddress {
    /// The endpoint.
    pub address: Address,
}

} // verus!
