//! Replicas: other nodes holding copies of a service's pages.

use vstd::prelude::*;

use crate::types::{Id, Timestamp};

verus! {

/// One replica of a service held by a peer.
#[derive(Clone, Debug)]
pub struct ReplicaInfo {
    /// Identity of the replicated page.
    pub page_id: Id,
    /// The peer holding the replica.
    pub peer_id: Id,
    /// Version of the replicated page.
    pub version: u16,
    /// When the replica was first issued.
    pub issued: Timestamp,
    /// When the replica was last refreshed.
    pub updated: Timestamp,
    /// When the replica lapses.
    pub expiry: Option<Timestamp>,
    /// Whether the replica is active.
    pub active: bool,
}

} // verus!
