//! Service records and the forward-only lifecycle state machine.
//!
//! A service's reported state is the highest milestone it has reached
//! under the precedence order `Subscribed > Located > Registered >
//! Created`; reaching a lower milestone after a higher one is a no-op, so
//! the reported state never regresses.

use vstd::prelude::*;

use crate::data::Data;
use crate::types::{Address, Container, Id, PrivateKey, PublicKey, SecretKey, Signature, Timestamp};
use crate::ServiceIdentifier;

verus! {

/// Milestones of a service's lifecycle, in precedence order.
#[derive(Clone, Copy, Debug, PartialEq, Eq, Structural)]
pub enum ServiceState {
    /// Initial state on local construction; no page has been published.
    Created,
    /// The service's root page was published and accepted by the network.
    Registered,
    /// A search resolved the service's current page.
    Located,
    /// This node holds an active subscription to the service.
    Subscribed,
}

/// Position of a milestone in the precedence order
/// `Subscribed > Located > Registered > Created`.
pub open spec fn state_rank(s: ServiceState) -> int {
    match s {
        ServiceState::Created => 0,
        ServiceState::Registered => 1,
        ServiceState::Located => 2,
        ServiceState::Subscribed => 3,
    }
}

/// The state stored after a milestone is reached: the higher of the
/// current state and the new milestone, so reaching a lower milestone
/// after a higher one changes nothing.
pub open spec fn lifecycle_step(current: ServiceState, milestone: ServiceState) -> ServiceState {
    if state_rank(milestone) > state_rank(current) {
        milestone
    } else {
        current
    }
}

/// The state stored after a whole sequence of milestones is folded, in
/// order, into `start`.
pub open spec fn lifecycle_run(start: ServiceState, milestones: Seq<ServiceState>) -> ServiceState
    decreases milestones.len(),
{
    if milestones.len() == 0 {
        start
    } else {
        lifecycle_step(lifecycle_run(start, milestones.drop_last()), milestones.last())
    }
}

/// Lifecycle monotonicity: under every sequence of transition events the
/// reported milestone never falls below where it started.
pub proof fn lemma_lifecycle_monotone(start: ServiceState, milestones: Seq<ServiceState>)
    ensures
        state_rank(lifecycle_run(start, milestones)) >= state_rank(start),
    decreases milestones.len(),
{
    if milestones.len() > 0 {
        lemma_lifecycle_monotone(start, milestones.drop_last());
    }
}

/// Lifecycle monotonicity, step form: one further transition event never
/// lowers the reported milestone reached after any earlier sequence.
pub proof fn lemma_lifecycle_never_regresses(
    start: ServiceState,
    milestones: Seq<ServiceState>,
    next: ServiceState,
)
    ensures
        state_rank(lifecycle_run(start, milestones.push(next))) >= state_rank(
            lifecycle_run(start, milestones),
        ),
{
    assert(milestones.push(next).drop_last() =~= milestones);
}

impl ServiceState {
    /// Position of the milestone in the precedence order.
    pub fn rank(self) -> (r: u8)
        ensures
            r as int == state_rank(self),
    {
        match self {
            ServiceState::Created => 0,
            ServiceState::Registered => 1,
            ServiceState::Located => 2,
            ServiceState::Subscribed => 3,
        }
    }

    /// Fold one reached milestone into the stored state.
    pub fn advance(self, milestone: ServiceState) -> (r: ServiceState)
        ensures
            r == lifecycle_step(self, milestone),
    {
        if milestone.rank() > self.rank() {
            milestone
        } else {
            self
        }
    }
}

/// A lifecycle transition event, as reported by the surrounding daemon.
#[derive(Clone, Debug)]
pub enum ServiceEvent {
    /// The service's root page was accepted by the network; carries the
    /// signature of the published primary page.
    Register(Signature),
    /// A search resolved the service's current page; carries the replica
    /// page signature when this node also holds a replicated copy.
    Locate(Option<Signature>),
    /// A subscription for the service became active.
    Subscribe,
}

/// The milestone that a transition event reaches.
pub open spec fn event_milestone(ev: ServiceEvent) -> ServiceState {
    match ev {
        ServiceEvent::Register(_) => ServiceState::Registered,
        ServiceEvent::Locate(_) => ServiceState::Located,
        ServiceEvent::Subscribe => ServiceState::Subscribed,
    }
}

/// The daemon's record of one locally-known distributed service.
#[derive(Clone, Debug)]
pub struct ServiceInfo {
    pub id: Id,
    pub index: usize,
    pub state: ServiceState,
    pub public_key: PublicKey,
    pub private_key: Option<PrivateKey>,
    pub secret_key: Option<SecretKey>,
    pub last_updated: Option<Timestamp>,
    pub primary_page: Option<Signature>,
    pub replica_page: Option<Signature>,
    pub subscribers: usize,
    pub replicas: usize,
    pub origin: bool,
    pub subscribed: bool,
}

impl ServiceInfo {
    /// A fresh record for a newly constructed service: no page has been
    /// published or located yet, nobody subscribes, and `origin` is fixed
    /// here, once and for all, to say whether this node generated the
    /// service's root page.
    pub fn new(
        id: Id,
        index: usize,
        public_key: PublicKey,
        private_key: Option<PrivateKey>,
        secret_key: Option<SecretKey>,
        origin: bool,
    ) -> (r: ServiceInfo)
        ensures
            r.id == id,
            r.index == index,
            r.state == ServiceState::Created,
            r.public_key == public_key,
            r.private_key == private_key,
            r.secret_key == secret_key,
            r.last_updated is None,
            r.primary_page is None,
            r.replica_page is None,
            r.subscribers == 0,
            r.replicas == 0,
            r.origin == origin,
            !r.subscribed,
    {
        ServiceInfo {
            id,
            index,
            state: ServiceState::Created,
            public_key,
            private_key,
            secret_key,
            last_updated: None,
            primary_page: None,
            replica_page: None,
            subscribers: 0,
            replicas: 0,
            origin,
            subscribed: false,
        }
    }

    /// Fold a lifecycle transition event into the record: the stored state
    /// moves to the higher of itself and the event's milestone, a
    /// registration records the primary page signature, a location records
    /// the replica page signature when one was obtained, and a
    /// subscription sets the subscribed flag. Identity, keys and counters
    /// are untouched.
    pub fn apply_event(&mut self, ev: ServiceEvent)
        ensures
            final (self).state == lifecycle_step(old(self).state, event_milestone(ev)),
            ev matches ServiceEvent::Register(sig) ==> {
                &&& final (self).primary_page == Some(sig)
                &&& final (self).replica_page == old(self).replica_page
                &&& final (self).subscribed == old(self).subscribed
            },
            ev matches ServiceEvent::Locate(rp) ==> {
                &&& final (self).primary_page == old(self).primary_page
                &&& final (self).replica_page == (if rp is Some {
                    rp
                } else {
                    old(self).replica_page
                })
                &&& final (self).subscribed == old(self).subscribed
            },
            ev is Subscribe ==> {
                &&& final (self).primary_page == old(self).primary_page
                &&& final (self).replica_page == old(self).replica_page
                &&& final (self).subscribed
            },
            final (self).id == old(self).id,
            final (self).index == old(self).index,
            final (self).public_key == old(self).public_key,
            final (self).private_key == old(self).private_key,
            final (self).secret_key == old(self).secret_key,
            final (self).last_updated == old(self).last_updated,
            final (self).subscribers == old(self).subscribers,
            final (self).replicas == old(self).replicas,
            final (self).origin == old(self).origin,
    {
        let milestone: ServiceState = match &ev {
            ServiceEvent::Register(_) => ServiceState::Registered,
            ServiceEvent::Locate(_) => ServiceState::Located,
            ServiceEvent::Subscribe => ServiceState::Subscribed,
        };
        self.state = self.state.advance(milestone);
        match ev {
            ServiceEvent::Register(sig) => {
                self.primary_page = Some(sig);
            },
            ServiceEvent::Locate(rp) => {
                if rp.is_some() {
                    self.replica_page = rp;
                }
            },
            ServiceEvent::Subscribe => {
                self.subscribed = true;
            },
        }
    }
}

/// Service operations a client can request of the daemon.
#[derive(Clone, Debug)]
pub enum ServiceCommands {
    /// List known services.
    List(ListOptions),
    /// Create a new service.
    Create(CreateOptions),
    /// Locate an existing service.
    Locate(LocateOptions),
    /// Fetch information for a service.
    Info(InfoOptions),
    /// Register an existing, known service.
    Register(RegisterOptions),
    /// Subscribe to a known service.
    Subscribe(SubscribeOptions),
    /// Unsubscribe from a known service.
    Unsubscribe(UnsubscribeOptions),
    /// Set the encryption or decryption key for a given service.
    SetKey(SetKeyOptions),
    /// Remove a service from the service list.
    Remove(RemoveOptions),
}

/// Options for listing services.
#[derive(Clone, Debug)]
pub struct ListOptions {
    /// Application identifier used for filtering.
    pub application_id: Option<u16>,
}

/// Options for creating a service.
#[derive(Clone, Debug)]
pub struct CreateOptions {
    /// Application identifier.
    pub application_id: u16,
    /// Numeric kind of the service's root page.
    pub page_kind: Option<u16>,
    /// Body of the service's root page.
    pub body: Option<Data>,
    /// Endpoints the service is reachable at.
    pub addresses: Vec<Address>,
    /// Metadata key/value pairs.
    pub metadata: Vec<(String, String)>,
    /// Public service options, as key/value encodings.
    pub public_options: Vec<(String, String)>,
    /// Private service options, as key/value encodings.
    pub private_options: Vec<(String, String)>,
    /// The service should be public (unencrypted).
    pub public: bool,
    /// The service should be registered and replicated after creation.
    pub register: bool,
}

impl Default for CreateOptions {
    /// A private, unregistered service with no body, endpoints or
    /// metadata.
    fn default() -> (r: CreateOptions)
        ensures
            r.application_id == 0,
            r.page_kind is None,
            r.body is None,
            r.addresses@ == Seq::<Address>::empty(),
            r.metadata@ == Seq::<(String, String)>::empty(),
            r.public_options@ == Seq::<(String, String)>::empty(),
            r.private_options@ == Seq::<(String, String)>::empty(),
            !r.public,
            !r.register,
    {
        CreateOptions {
            application_id: 0,
            page_kind: None,
            body: None,
            addresses: Vec::new(),
            metadata: Vec::new(),
            public_options: Vec::new(),
            private_options: Vec::new(),
            public: false,
            register: false,
        }
    }
}

impl CreateOptions {
    /// The same options, with registration after creation switched on.
    pub fn and_register(self) -> (r: CreateOptions)
        ensures
            r.register,
            r.application_id == self.application_id,
            r.page_kind == self.page_kind,
            r.body == self.body,
            r.addresses == self.addresses,
            r.metadata == self.metadata,
            r.public_options == self.public_options,
            r.private_options == self.private_options,
            r.public == self.public,
    {
        let mut updated = self;
        updated.register = true;
        updated
    }
}

/// Outcome of creating a service.
#[derive(Clone, Debug)]
pub struct CreateInfo {
    pub id: Id,
    pub secret_key: Option<SecretKey>,
}

/// Options for registering a service.
#[derive(Clone, Debug)]
pub struct RegisterOptions {
    /// The service to register.
    pub service: ServiceIdentifier,
    /// Do not become a replica for the registered service.
    pub no_replica: bool,
}

impl RegisterOptions {
    /// Register the service with the given identity, becoming a replica.
    pub fn new(id: Id) -> (r: RegisterOptions)
        ensures
            r.service.id == Some(id),
            r.service.index is None,
            !r.no_replica,
    {
        RegisterOptions { service: ServiceIdentifier { id: Some(id), index: None }, no_replica: false }
    }
}

/// Outcome of registering a service.
#[derive(Clone, Debug)]
pub struct RegisterInfo {
    pub page_version: u16,
    pub replica_version: Option<u16>,
    pub peers: usize,
}

/// Options for locating a service.
#[derive(Clone, Debug)]
pub struct LocateOptions {
    /// Identity of the service to locate.
    pub id: Id,
    /// Search only in the local datastore.
    pub local_only: bool,
}

/// Outcome of locating a service.
#[derive(Clone, Debug)]
pub struct LocateInfo {
    pub origin: bool,
    pub updated: bool,
    pub page_version: u16,
    pub page: Option<Container>,
}

impl Default for LocateInfo {
    /// Nothing located yet.
    fn default() -> (r: LocateInfo)
        ensures
            !r.origin,
            !r.updated,
            r.page_version == 0,
            r.page is None,
    {
        LocateInfo { origin: false, updated: false, page_version: 0, page: None }
    }
}

/// Options for fetching service information.
#[derive(Clone, Debug)]
pub struct InfoOptions {
    pub service: ServiceIdentifier,
}

impl From<ServiceIdentifier> for InfoOptions {
    fn from(service: ServiceIdentifier) -> (r: InfoOptions) {
        InfoOptions { service }
    }
}

impl vstd::std_specs::convert::FromSpecImpl<ServiceIdentifier> for InfoOptions {
    open spec fn obeys_from_spec() -> bool {
        true
    }

    open spec fn from_spec(service: ServiceIdentifier) -> InfoOptions {
        InfoOptions { service }
    }
}

/// Options for subscribing to a service.
#[derive(Clone, Debug)]
pub struct SubscribeOptions {
    pub service: ServiceIdentifier,
}

impl From<ServiceIdentifier> for SubscribeOptions {
    fn from(service: ServiceIdentifier) -> (r: SubscribeOptions) {
        SubscribeOptions { service }
    }
}

impl vstd::std_specs::convert::FromSpecImpl<ServiceIdentifier> for SubscribeOptions {
    open spec fn obeys_from_spec() -> bool {
        true
    }

    open spec fn from_spec(service: ServiceIdentifier) -> SubscribeOptions {
        SubscribeOptions { service }
    }
}

/// Options for unsubscribing from a service.
#[derive(Clone, Debug)]
pub struct UnsubscribeOptions {
    pub service: ServiceIdentifier,
}

impl From<ServiceIdentifier> for UnsubscribeOptions {
    fn from(service: ServiceIdentifier) -> (r: UnsubscribeOptions) {
        UnsubscribeOptions { service }
    }
}

impl vstd::std_specs::convert::FromSpecImpl<ServiceIdentifier> for UnsubscribeOptions {
    open spec fn obeys_from_spec() -> bool {
        true
    }

    open spec fn from_spec(service: ServiceIdentifier) -> UnsubscribeOptions {
        UnsubscribeOptions { service }
    }
}

/// What a subscription entry is keyed by: the subscribing peer, a local
/// socket, or nothing in particular.
#[derive(Clone, Debug)]
pub enum SubscriptionKind {
    /// A remote peer subscribes or replicates.
    Peer(Id),
    /// A local socket subscribes.
    Socket(u32),
    /// No subscriber is identified.
    Unspecified,
}

/// One active subscriber or replica of a service, with its keep-alive and
/// expiry times and delivery preference.
#[derive(Clone, Debug)]
pub struct SubscriptionInfo {
    pub service_id: Id,
    pub kind: SubscriptionKind,
    /// Time of the most recent keep-alive.
    pub updated: Option<Timestamp>,
    /// Time past which the entry lapses.
    pub expiry: Option<Timestamp>,
    pub qos: QosPriority,
}

/// Delivery preference of a subscription.
#[derive(Clone, Copy, Debug, PartialEq, Eq, Structural)]
pub enum QosPriority {
    /// No particular preference.
    Unspecified,
    /// Latency-sensitive delivery.
    Latency,
}

impl SubscriptionInfo {
    /// A fresh entry with no keep-alive or expiry time and no delivery
    /// preference.
    pub fn new(service_id: Id, kind: SubscriptionKind) -> (r: SubscriptionInfo)
        ensures
            r.service_id == service_id,
            r.kind == kind,
            r.updated is None,
            r.expiry is None,
            r.qos == QosPriority::Unspecified,
    {
        SubscriptionInfo { service_id, kind, updated: None, expiry: None, qos: QosPriority::Unspecified }
    }
}

/// Options for setting a service's secret key.
#[derive(Clone, Debug)]
pub struct SetKeyOptions {
    pub service: ServiceIdentifier,
    /// Secret key granting access to the service.
    pub secret_key: Option<SecretKey>,
}

/// Options for removing a service.
#[derive(Clone, Debug)]
pub struct RemoveOptions {
    pub service: ServiceIdentifier,
    /// Also attempt to remove an owned service from the network.
    pub purge: bool,
}

} // verus!
