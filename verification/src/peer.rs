//! Peer records and the reconciliation rules applied as new observations
//! of a peer arrive, possibly out of order, from the network.

use vstd::prelude::*;

use crate::types::{bytes_eq, Address, Error, Id, PublicKey, Timestamp};

verus! {

/// Key-exchange progress for a remote peer.
#[derive(Clone, Debug)]
pub enum PeerState {
    /// A peer that has not been contacted exists in the unknown state.
    Unknown,
    /// Once public keys have been exchanged the peer is known.
    Known(PublicKey),
}

impl PartialEq for PeerState {
    fn eq(&self, other: &PeerState) -> (r: bool) {
        match (self, other) {
            (PeerState::Unknown, PeerState::Unknown) => true,
            (PeerState::Known(a), PeerState::Known(b)) => bytes_eq(&a.bytes, &b.bytes),
            _ => false,
        }
    }
}

impl vstd::std_specs::cmp::PartialEqSpecImpl for PeerState {
    open spec fn obeys_eq_spec() -> bool {
        true
    }

    open spec fn eq_spec(&self, other: &PeerState) -> bool {
        match (self, other) {
            (PeerState::Unknown, PeerState::Unknown) => true,
            (PeerState::Known(a), PeerState::Known(b)) => a@ == b@,
            _ => false,
        }
    }
}

/// Provenance of a peer's address: inferred from inbound traffic
/// (implicit) or deliberately supplied by the operator (explicit).
#[derive(Clone, Debug)]
pub enum PeerAddress {
    /// Address inferred from traffic received from the peer.
    Implicit(Address),
    /// Address the operator explicitly configured or connected to.
    Explicit(Address),
}

impl PartialEq for PeerAddress {
    fn eq(&self, other: &PeerAddress) -> (r: bool) {
        match (self, other) {
            (PeerAddress::Implicit(a), PeerAddress::Implicit(b)) => a == b,
            (PeerAddress::Explicit(a), PeerAddress::Explicit(b)) => a == b,
            _ => false,
        }
    }
}

impl vstd::std_specs::cmp::PartialEqSpecImpl for PeerAddress {
    open spec fn obeys_eq_spec() -> bool {
        true
    }

    open spec fn eq_spec(&self, other: &PeerAddress) -> bool {
        match (self, other) {
            (PeerAddress::Implicit(a), PeerAddress::Implicit(b)) => a@ == b@,
            (PeerAddress::Explicit(a), PeerAddress::Explicit(b)) => a@ == b@,
            _ => false,
        }
    }
}

/// The merge rule applied when a new address observation arrives for an
/// existing peer record: an explicit observation always replaces the
/// current address, the freshest of two implicit observations wins, and
/// an implicit observation never displaces an explicit address.
pub open spec fn reconcile_address(current: PeerAddress, incoming: PeerAddress) -> PeerAddress {
    match (current, incoming) {
        (_, PeerAddress::Explicit(_)) => incoming,
        (PeerAddress::Implicit(_), PeerAddress::Implicit(_)) => incoming,
        (PeerAddress::Explicit(_), PeerAddress::Implicit(_)) => current,
    }
}

/// The reconciliation rule is total and matches its table exactly: an
/// explicit incoming address replaces the current one; an implicit
/// incoming address replaces an implicit current one and is ignored
/// against an explicit current one; and the merge never invents an
/// address, it keeps one of its two arguments.
pub proof fn lemma_reconcile_address_total(current: PeerAddress, incoming: PeerAddress)
    ensures
        incoming is Explicit ==> reconcile_address(current, incoming) == incoming,
        current is Implicit && incoming is Implicit ==> reconcile_address(current, incoming)
            == incoming,
        current is Explicit && incoming is Implicit ==> reconcile_address(current, incoming)
            == current,
        reconcile_address(current, incoming) == current || reconcile_address(current, incoming)
            == incoming,
{
}

/// The observation time stored after folding an observation at `t` into a
/// record whose stored time is `cur`: the stored time never moves backward.
pub open spec fn seen_after(cur: Option<Timestamp>, t: Timestamp) -> Option<Timestamp> {
    match cur {
        Option::None => Option::Some(t),
        Option::Some(c) => Option::Some(if t > c { t } else { c }),
    }
}

/// The stored observation time is monotone: after an observation at `t1`,
/// a late-arriving observation carrying an older time `t0` leaves the
/// stored time at `t1`.
pub proof fn lemma_seen_monotone(cur: Option<Timestamp>, t1: Timestamp, t0: Timestamp)
    requires
        t0 < t1,
    ensures
        seen_after(seen_after(cur, t1), t0) == seen_after(cur, t1),
{
}

/// The daemon's record of one remote node.
#[derive(Clone, Debug)]
pub struct PeerInfo {
    pub id: Id,
    pub index: usize,
    pub address: PeerAddress,
    pub state: PeerState,
    pub seen: Option<Timestamp>,
    pub sent: u64,
    pub received: u64,
    pub blocked: bool,
}

impl PeerInfo {
    /// A fresh record: traffic counters start at zero and the peer is not
    /// blocked.
    pub fn new(
        id: Id,
        address: PeerAddress,
        state: PeerState,
        index: usize,
        seen: Option<Timestamp>,
    ) -> (r: PeerInfo)
        ensures
            r.id == id,
            r.address == address,
            r.state == state,
            r.index == index,
            r.seen == seen,
            r.sent == 0,
            r.received == 0,
            !r.blocked,
    {
        PeerInfo { id, address, state, seen, index, sent: 0, received: 0, blocked: false }
    }

    /// The endpoint currently in use, regardless of its provenance.
    pub fn address(&self) -> (r: &Address)
        ensures
            *r == (match self.address {
                PeerAddress::Explicit(a) => a,
                PeerAddress::Implicit(a) => a,
            }),
    {
        match &self.address {
            PeerAddress::Explicit(e) => e,
            PeerAddress::Implicit(i) => i,
        }
    }

    /// Fold a new address observation into the record under the
    /// reconciliation rule; no other field changes.
    pub fn update_address(&mut self, addr: PeerAddress)
        ensures
            final (self).address == reconcile_address(old(self).address, addr),
            final (self).id == old(self).id,
            final (self).index == old(self).index,
            final (self).state == old(self).state,
            final (self).seen == old(self).seen,
            final (self).sent == old(self).sent,
            final (self).received == old(self).received,
            final (self).blocked == old(self).blocked,
    {
        match (&self.address, &addr) {
            (_, PeerAddress::Explicit(_)) => {
                self.address = addr;
            },
            (PeerAddress::Implicit(_), PeerAddress::Implicit(_)) => {
                self.address = addr;
            },
            _ => {},
        }
    }

    /// The key-exchange state of the peer.
    pub fn state(&self) -> (r: &PeerState)
        ensures
            *r == self.state,
    {
        &self.state
    }

    /// Fold an observed key-exchange state into the record. The
    /// transition is one-way: an unknown peer accepts any observation,
    /// while a known peer accepts only its own key again — a different
    /// key, or an attempt to drop the learned key, is surfaced as
    /// `KeyMismatch` and never applied silently. No other field changes.
    pub fn set_state(&mut self, state: PeerState) -> (r: Result<(), Error>)
        ensures
            (match old(self).state {
                PeerState::Unknown => r is Ok && final (self).state == state,
                PeerState::Known(k) => (match state {
                    PeerState::Known(k2) => {
                        if k2@ == k@ {
                            r is Ok && final (self).state == old(self).state
                        } else {
                            r == Result::<(), Error>::Err(Error::KeyMismatch) && final (self).state
                                == old(self).state
                        }
                    },
                    PeerState::Unknown => r == Result::<(), Error>::Err(Error::KeyMismatch)
                        && final (self).state == old(self).state,
                }),
            }),
            final (self).id == old(self).id,
            final (self).index == old(self).index,
            final (self).address == old(self).address,
            final (self).seen == old(self).seen,
            final (self).sent == old(self).sent,
            final (self).received == old(self).received,
            final (self).blocked == old(self).blocked,
    {
        let accepted = match (&self.state, &state) {
            (PeerState::Unknown, _) => true,
            (PeerState::Known(k), PeerState::Known(k2)) => bytes_eq(&k.bytes, &k2.bytes),
            (PeerState::Known(_), PeerState::Unknown) => false,
        };
        if !accepted {
            return Err(Error::KeyMismatch);
        }
        match &self.state {
            PeerState::Unknown => {
                self.state = state;
            },
            PeerState::Known(_) => {},
        }
        Ok(())
    }

    /// Fold a completed key exchange into the record: an unknown peer
    /// becomes known unconditionally; seeing the same key again is a
    /// no-op; a different key for an already-known peer is surfaced as
    /// `KeyMismatch` and never applied silently.
    pub fn observe_key(&mut self, key: PublicKey) -> (r: Result<(), Error>)
        ensures
            (match old(self).state {
                PeerState::Unknown => r is Ok && final (self).state == PeerState::Known(key),
                PeerState::Known(k) => {
                    if k@ == key@ {
                        r is Ok && final (self).state == old(self).state
                    } else {
                        r == Result::<(), Error>::Err(Error::KeyMismatch) && final (self).state
                            == old(self).state
                    }
                },
            }),
            final (self).id == old(self).id,
            final (self).index == old(self).index,
            final (self).address == old(self).address,
            final (self).seen == old(self).seen,
            final (self).sent == old(self).sent,
            final (self).received == old(self).received,
            final (self).blocked == old(self).blocked,
    {
        let known = match &self.state {
            PeerState::Unknown => false,
            PeerState::Known(_) => true,
        };
        if !known {
            self.state = PeerState::Known(key);
            return Ok(());
        }
        let same = match &self.state {
            PeerState::Unknown => false,
            PeerState::Known(k) => bytes_eq(&k.bytes, &key.bytes),
        };
        if same {
            Ok(())
        } else {
            Err(Error::KeyMismatch)
        }
    }

    /// The last observation time, if the peer has ever been seen.
    pub fn seen(&self) -> (r: Option<Timestamp>)
        ensures
            r == self.seen,
    {
        self.seen
    }

    /// Record an interaction observed at `seen`; the stored time never
    /// moves backward, and no other field changes.
    pub fn set_seen(&mut self, seen: Timestamp)
        ensures
            final (self).seen == seen_after(old(self).seen, seen),
            final (self).id == old(self).id,
            final (self).index == old(self).index,
            final (self).address == old(self).address,
            final (self).state == old(self).state,
            final (self).sent == old(self).sent,
            final (self).received == old(self).received,
            final (self).blocked == old(self).blocked,
    {
        match self.seen {
            Option::None => {
                self.seen = Some(seen);
            },
            Option::Some(c) => {
                if seen > c {
                    self.seen = Some(seen);
                }
            },
        }
    }
}

/// Peer operations a client can request of the daemon.
#[derive(Clone, Debug)]
pub enum PeerCommands {
    /// List known peers.
    List(PeerOptions),
    /// Connect to a known peer.
    Connect(ConnectOptions),
    /// Fetch information for a given peer.
    Info(crate::ServiceIdentifier),
    /// Search the database for a peer.
    Search(SearchOptions),
    /// Remove a known peer from the database.
    Remove(crate::ServiceIdentifier),
    /// Block a peer.
    Block(crate::ServiceIdentifier),
    /// Unblock a peer.
    Unblock(crate::ServiceIdentifier),
}

/// Options passed to the connect operation.
#[derive(Clone, Debug)]
pub struct ConnectOptions {
    /// Endpoint for the connection attempt.
    pub address: Address,
    /// Identity of the remote node, when already known.
    pub id: Option<Id>,
    /// Seconds to wait before giving up on the attempt.
    pub timeout_secs: Option<u64>,
}

/// Options for listing peers.
#[derive(Clone, Debug)]
pub struct PeerOptions {}

/// Options passed to the peer search operation.
#[derive(Clone, Debug)]
pub struct SearchOptions {
    /// Identity of the peer to find.
    pub id: Id,
    /// Seconds to wait before giving up on the search.
    pub timeout_secs: Option<u64>,
}

/// Outcome of a connect operation.
#[derive(Clone, Debug)]
pub struct ConnectInfo {
    pub id: Id,
    pub peers: usize,
}

} // verus!
