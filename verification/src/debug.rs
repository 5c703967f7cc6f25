//! Debug and introspection operations.

use vstd::prelude::*;

use crate::ServiceIdentifier;

verus! {

/// Debug operations a client can request of the daemon.
#[derive(Clone, Debug)]
pub enum DebugCommands {
    /// Datastore debug operations.
    Datastore(DatastoreCommands),
    /// Distributed-hash-table debug operations.
    Dht(DhtCommands),
    /// Force an update of the daemon.
    Update,
    /// Invoke bootstrapping.
    Bootstrap,
}

/// Datastore debug operations. No real operation is defined; a datatype
/// needs an inhabitant, so the one variant stands for a request the
/// daemon answers as unrecognised.
#[derive(Clone, Debug)]
pub enum DatastoreCommands {
    /// No datastore debug operation is available.
    Unsupported,
}

/// Distributed-hash-table debug operations.
#[derive(Clone, Debug)]
pub enum DhtCommands {
    /// Find a peer with a given identity.
    Peer(ServiceIdentifier),
    /// Find data at a certain identity.
    Data(ServiceIdentifier),
}

} // verus!
