//! Name-service operations: searching for and registering services under
//! human-meaningful names or content hashes.

use vstd::prelude::*;

use crate::types::{CryptoHash, Id};
use crate::ServiceIdentifier;

verus! {

/// Name-service operations a client can request of the daemon.
#[derive(Clone, Debug)]
pub enum NsCommands {
    /// Search using the specified name service.
    Search(NsSearchOptions),
    /// Register a service with the specified name service.
    Register(NsRegisterOptions),
}

/// Options for a name-service search.
#[derive(Clone, Debug)]
pub struct NsSearchOptions {
    /// The name service to search with.
    pub ns: ServiceIdentifier,
    /// Name to search for.
    pub name: Option<String>,
    /// Hash to search for.
    pub hash: Option<CryptoHash>,
}

/// Options for a name-service registration.
#[derive(Clone, Debug)]
pub struct NsRegisterOptions {
    /// The name service to register with.
    pub ns: ServiceIdentifier,
    /// Identity of the service to register.
    pub target: Id,
    /// Name to register the service under.
    pub name: Option<String>,
    /// Hashes to associate with the service.
    pub hash: Vec<CryptoHash>,
}

/// Outcome of a name-service registration.
#[derive(Clone, Debug)]
pub struct NsRegisterInfo {
    /// The name service registered with.
    pub ns: Id,
    /// Prefix of the name service, when it has one.
    pub prefix: Option<String>,
    /// Name the service was registered under.
    pub name: Option<String>,
    /// Hashes associated with the service.
    pub hashes: Vec<CryptoHash>,
}

} // verus!
