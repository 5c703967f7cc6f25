//! Client-side contract for a distributed-service daemon: identifier
//! resolution, request/response correlation, peer address reconciliation,
//! the service lifecycle state machine, and pagination of query results.
//!
//! Wire transport, cryptography, persistent storage and command-line
//! handling are external collaborators; this crate defines the data
//! contracts and the reconciliation logic that must hold regardless of
//! which transport or storage backend is used.

use vstd::prelude::*;

pub mod config;
pub mod correlation;
pub mod data;
pub mod debug;
pub mod delegation;
pub mod helpers;
pub mod name;
pub mod page;
pub mod peer;
pub mod replica;
pub mod service;
pub mod subscriber;
pub mod types;

pub use config::{ConfigCommands, SocketAddress};
pub use correlation::CorrelationTable;
pub use data::{Data, DataCommands, DataInfo, PublishInfo, PublishOptions, PushOptions};
pub use debug::{DatastoreCommands, DebugCommands, DhtCommands};
pub use delegation::DelegationCommands;
pub use helpers::{data_from_str, split_key_value};
pub use name::{NsCommands, NsRegisterInfo, NsRegisterOptions, NsSearchOptions};
pub use page::{FetchOptions, PageCommands};
pub use peer::{
    ConnectInfo, ConnectOptions, PeerAddress, PeerCommands, PeerInfo, PeerOptions, PeerState,
    SearchOptions,
};
pub use replica::ReplicaInfo;
pub use service::{
    CreateInfo, CreateOptions, InfoOptions, LocateInfo, LocateOptions, QosPriority, RegisterInfo,
    RegisterOptions, RemoveOptions, ServiceCommands, ServiceEvent, ServiceInfo, ServiceState,
    SetKeyOptions, SubscribeOptions, SubscriptionInfo, SubscriptionKind, UnsubscribeOptions,
};
pub use subscriber::{SubscriberCommands, SubscriptionLedger};
pub use types::{
    bytes_eq, Address, Body, Container, CryptoHash, Error, Id, PrivateKey, PublicKey, SecretKey,
    Signature, Timestamp,
};

verus! {

/// Relies on rand::random: a value of the requested type drawn from the
/// thread-local generator; nothing can be promised of a random value, so
/// this has no contract beyond its type.
pub assume_specification<T>[ rand::random::<T> ]() -> (r: T)
    where
        rand::distr::StandardUniform: rand::distr::Distribution<T>,
;

/// A request from a client to the daemon, tagged with a caller-chosen
/// correlation id.
#[derive(Clone, Debug)]
pub struct Request {
    req_id: u64,
    kind: RequestKind,
}

impl Request {
    /// The correlation id the request was tagged with.
    pub closed spec fn spec_req_id(&self) -> u64 {
        self.req_id
    }

    /// The operation requested.
    pub closed spec fn spec_kind(&self) -> RequestKind {
        self.kind
    }

    /// An envelope carrying the given correlation id; `new` draws the id
    /// and builds the envelope here, and callers that manage ids
    /// themselves may do the same.
    pub fn with_id(req_id: u64, kind: RequestKind) -> (r: Request)
        ensures
            r.spec_req_id() == req_id,
            r.spec_kind() == kind,
    {
        Request { req_id, kind }
    }

    /// A fresh request for the given operation, tagged with whatever id
    /// the random source yielded. The correlation id is drawn uniformly
    /// at random rather than from a counter, so request volume is not
    /// leaked and independent callers need no coordination; a collision
    /// within the in-flight window is tolerated by the correlation
    /// table, which refuses the registration.
    pub fn new(kind: RequestKind) -> (r: Request)
        ensures
            r.spec_kind() == kind,
    {
        let req_id: u64 = rand::random();
        Request::with_id(req_id, kind)
    }

    /// The correlation id the request was tagged with.
    pub fn req_id(&self) -> (r: u64)
        ensures
            r == self.spec_req_id(),
    {
        self.req_id
    }

    /// The operation requested.
    pub fn kind(&self) -> (r: &RequestKind)
        ensures
            *r == self.spec_kind(),
    {
        &self.kind
    }
}

/// The operations a client can request of the daemon.
#[derive(Clone, Debug)]
pub enum RequestKind {
    /// Check the status of the daemon.
    Status,
    /// Manage and interact with peers.
    Peer(PeerCommands),
    /// Manage and interact with services.
    Service(ServiceCommands),
    /// Manage and interact with name services.
    Ns(NsCommands),
    /// Fetch stored objects.
    Page(PageCommands),
    /// Manage data.
    Data(DataCommands),
    /// Manage subscribers.
    Subscriber(SubscriberCommands),
    /// Manage runtime daemon configuration.
    Config(ConfigCommands),
    /// Expose debug information.
    Debug(DebugCommands),
    /// Stream data from a given service.
    Stream(SubscribeOptions),
}

/// A reply from the daemon, carrying the correlation id of the request it
/// answers.
#[derive(Clone, Debug)]
pub struct Response {
    req_id: u64,
    kind: ResponseKind,
}

impl Response {
    /// The correlation id of the request this response answers.
    pub closed spec fn spec_req_id(&self) -> u64 {
        self.req_id
    }

    /// The payload of the response.
    pub closed spec fn spec_kind(&self) -> ResponseKind {
        self.kind
    }

    /// A response answering the request tagged `req_id`.
    pub fn new(req_id: u64, kind: ResponseKind) -> (r: Response)
        ensures
            r.spec_req_id() == req_id,
            r.spec_kind() == kind,
    {
        Response { req_id, kind }
    }

    /// The correlation id of the request this response answers.
    pub fn req_id(&self) -> (r: u64)
        ensures
            r == self.spec_req_id(),
    {
        self.req_id
    }

    /// The payload of the response.
    pub fn kind(&self) -> (r: &ResponseKind)
        ensures
            *r == self.spec_kind(),
    {
        &self.kind
    }

    /// Whether this response answers the given request: exactly when the
    /// correlation ids agree. Callers discard a response that matches no
    /// outstanding request.
    pub fn answers(&self, req: &Request) -> (r: bool)
        ensures
            r == (self.spec_req_id() == req.spec_req_id()),
    {
        self.req_id == req.req_id()
    }
}

/// The payloads a response can carry: one success shape per request kind,
/// plus a shared error.
#[derive(Clone, Debug)]
pub enum ResponseKind {
    /// Acknowledged, with nothing to report.
    Empty,
    /// Daemon status.
    Status(StatusInfo),
    /// Outcome of connecting to a peer.
    Connected(ConnectInfo),
    /// One peer record.
    Peer(PeerInfo),
    /// Peer records with their identities.
    Peers(Vec<(Id, PeerInfo)>),
    /// One service record.
    Service(ServiceInfo),
    /// Service records.
    Services(Vec<ServiceInfo>),
    /// Outcome of registering a service.
    Registered(RegisterInfo),
    /// Outcome of locating a service.
    Located(LocateInfo),
    /// The active subscriptions of a service.
    Subscribed(Vec<SubscriptionInfo>),
    /// Outcome of publishing data.
    Published(PublishInfo),
    /// Raw datastore contents, for debugging.
    Datastore(Vec<(Id, Vec<Vec<u8>>)>),
    /// Outcome of a name-service registration.
    Ns(NsRegisterInfo),
    /// Stored data objects.
    Data(Vec<DataInfo>),
    /// Stored pages.
    Pages(Vec<Container>),
    /// One stored page.
    Page(Container),
    /// The request was not recognised.
    Unrecognised,
    /// The request failed.
    Error(Error),
}

/// A summary of daemon health.
#[derive(Clone, Debug)]
pub struct StatusInfo {
    /// The daemon's own identity.
    pub id: Id,
    /// How many peers are known.
    pub peers: usize,
    /// How many services are known.
    pub services: usize,
}

/// The identity `x` occurs nowhere in the directory `ids`.
pub open spec fn id_absent(ids: Seq<Id>, x: Id) -> bool {
    forall|j: int| 0 <= j < ids.len() ==> ids[j]@ != x@
}

/// Slot `i` is the first slot of the directory `ids` holding the
/// identity `x`.
pub open spec fn id_found_at(ids: Seq<Id>, x: Id, i: int) -> bool {
    &&& 0 <= i < ids.len()
    &&& ids[i]@ == x@
    &&& forall|j: int| 0 <= j < i ==> ids[j]@ != x@
}

/// Caller-supplied selector for a peer or service: by global identity or
/// by local slot index. Exactly one of the two is meaningful per call
/// site; when both are present the identity takes precedence, and when
/// neither is present resolution is a caller error, never "all records".
#[derive(Clone, Debug)]
pub struct ServiceIdentifier {
    /// Global service or peer identity.
    pub id: Option<Id>,
    /// Local service or peer slot.
    pub index: Option<usize>,
}

impl ServiceIdentifier {
    /// Select by global identity.
    pub fn id(id: Id) -> (r: ServiceIdentifier)
        ensures
            r.id == Some(id),
            r.index is None,
    {
        ServiceIdentifier { id: Some(id), index: None }
    }

    /// Select by local slot.
    pub fn index(index: usize) -> (r: ServiceIdentifier)
        ensures
            r.id is None,
            r.index == Some(index),
    {
        ServiceIdentifier { id: None, index: Some(index) }
    }

    /// Resolve this identifier against a directory, given as the
    /// identities of its records in slot order, to the slot of exactly
    /// one record.
    ///
    /// An identity, when present, takes precedence and resolves to the
    /// first slot holding it, ignoring any index; an index resolves to
    /// itself when in range; out-of-range or absent identities fail with
    /// `NotFound`, and an empty identifier fails with
    /// `InvalidIdentifier`.
    #[verifier::loop_isolation(false)]
    pub fn resolve(&self, ids: &Vec<Id>) -> (r: Result<usize, Error>)
        ensures
            self.id matches Some(x) ==> (match r {
                Result::Ok(i) => id_found_at(ids@, x, i as int),
                Result::Err(e) => e == Error::NotFound && id_absent(ids@, x),
            }),
            self.id is None ==> (match self.index {
                Option::Some(y) => {
                    if y < ids@.len() {
                        r == Result::<usize, Error>::Ok(y)
                    } else {
                        r == Result::<usize, Error>::Err(Error::NotFound)
                    }
                },
                Option::None => r == Result::<usize, Error>::Err(Error::InvalidIdentifier),
            }),
    {
        match &self.id {
            Option::Some(x) => {
                let mut i: usize = 0;
                while i < ids.len()
                    invariant
                        i <= ids.len(),
                        forall|j: int| 0 <= j < i ==> ids@[j]@ != x@,
                    decreases ids.len() - i,
                {
                    if bytes_eq(&ids[i].bytes, &x.bytes) {
                        return Ok(i);
                    }
                    i += 1;
                }
                Err(Error::NotFound)
            },
            Option::None => {
                match self.index {
                    Option::Some(y) => {
                        if y < ids.len() {
                            Ok(y)
                        } else {
                            Err(Error::NotFound)
                        }
                    },
                    Option::None => Err(Error::InvalidIdentifier),
                }
            },
        }
    }
}

impl From<Id> for ServiceIdentifier {
    fn from(id: Id) -> (r: ServiceIdentifier) {
        ServiceIdentifier::id(id)
    }
}

impl vstd::std_specs::convert::FromSpecImpl<Id> for ServiceIdentifier {
    open spec fn obeys_from_spec() -> bool {
        true
    }

    open spec fn from_spec(id: Id) -> ServiceIdentifier {
        ServiceIdentifier { id: Some(id), index: None }
    }
}

/// Pagination of listing responses: `offset` records are skipped, then at
/// most `count` records are returned. A missing field leaves that side
/// unbounded.
#[derive(Clone, Copy, Debug, PartialEq, Eq, Structural)]
pub struct PageBounds {
    /// Maximum number of records to return.
    pub count: Option<usize>,
    /// Number of leading records to skip.
    pub offset: Option<usize>,
}

impl Default for PageBounds {
    /// Unbounded: no offset, no count limit.
    fn default() -> (r: PageBounds)
        ensures
            r.count is None,
            r.offset is None,
    {
        PageBounds { count: None, offset: None }
    }
}

/// Inclusive time window limiting a query to records whose timestamp lies
/// within `[from, until]`. A missing bound leaves that side unbounded.
#[derive(Clone, Copy, Debug, PartialEq, Eq, Structural)]
pub struct TimeBounds {
    /// Earliest admitted record time.
    pub from: Option<Timestamp>,
    /// Latest admitted record time.
    pub until: Option<Timestamp>,
}

impl Default for TimeBounds {
    /// Unbounded on both sides.
    fn default() -> (r: TimeBounds)
        ensures
            r.from is None,
            r.until is None,
    {
        TimeBounds { from: None, until: None }
    }
}

/// A record time lies within the inclusive window `[from, until]`.
pub open spec fn within_time(tb: TimeBounds, t: Timestamp) -> bool {
    &&& (tb.from matches Some(f) ==> f <= t)
    &&& (tb.until matches Some(u) ==> t <= u)
}

/// The subsequence of `ts` whose entries lie within the window, in order.
pub open spec fn time_filter(ts: Seq<Timestamp>, tb: TimeBounds) -> Seq<Timestamp>
    decreases ts.len(),
{
    if ts.len() == 0 {
        Seq::empty()
    } else {
        let rest = time_filter(ts.drop_last(), tb);
        if within_time(tb, ts.last()) {
            rest.push(ts.last())
        } else {
            rest
        }
    }
}

/// `offset` (skip), then `count` (limit), applied to a sequence; both
/// saturate at the sequence length, so an offset past the end yields an
/// empty result rather than an error.
pub open spec fn page_slice(s: Seq<Timestamp>, pb: PageBounds) -> Seq<Timestamp> {
    let off: int = match pb.offset {
        Option::Some(o) => if o as int <= s.len() { o as int } else { s.len() as int },
        Option::None => 0,
    };
    let end: int = match pb.count {
        Option::Some(c) => if off + c as int <= s.len() { off + c as int } else { s.len() as int },
        Option::None => s.len() as int,
    };
    s.subrange(off, end)
}

/// Shape a listing: keep the record times of `ts` that fall within the
/// time window, then skip `offset` of them and return at most `count`,
/// in their original order. An empty result is valid, not an error.
pub fn select_window(ts: &Vec<Timestamp>, time: &TimeBounds, page: &PageBounds) -> (r: Vec<
    Timestamp,
>)
    ensures
        r@ == page_slice(time_filter(ts@, *time), *page),
{
    let mut kept: Vec<Timestamp> = Vec::new();
    let mut i: usize = 0;
    while i < ts.len()
        invariant
            i <= ts.len(),
            kept@ == time_filter(ts@.take(i as int), *time),
        decreases ts.len() - i,
    {
        let t = ts[i];
        proof {
            assert(ts@.take(i as int + 1).drop_last() =~= ts@.take(i as int));
            assert(ts@.take(i as int + 1).last() == ts@[i as int]);
        }
        let in_from = match time.from {
            Option::Some(f) => f <= t,
            Option::None => true,
        };
        let in_until = match time.until {
            Option::Some(u) => t <= u,
            Option::None => true,
        };
        if in_from && in_until {
            kept.push(t);
        }
        i += 1;
    }
    proof {
        assert(ts@.take(ts@.len() as int) =~= ts@);
    }
    let off: usize = match page.offset {
        Option::Some(o) => if o <= kept.len() { o } else { kept.len() },
        Option::None => 0,
    };
    let end: usize = match page.count {
        Option::Some(c) => if c <= kept.len() - off { off + c } else { kept.len() },
        Option::None => kept.len(),
    };
    let mut out: Vec<Timestamp> = Vec::new();
    let mut j: usize = off;
    while j < end
        invariant
            off <= j <= end <= kept@.len(),
            out@ == kept@.subrange(off as int, j as int),
        decreases end - j,
    {
        proof {
            assert(kept@.subrange(off as int, j as int + 1) =~= kept@.subrange(
                off as int,
                j as int,
            ).push(kept@[j as int]));
        }
        out.push(kept[j]);
        j += 1;
    }
    proof {
        assert(out@ =~= page_slice(time_filter(ts@, *time), *page));
    }
    out
}

} // verus!
