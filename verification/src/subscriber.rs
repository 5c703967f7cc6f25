//! The subscription ledger: a service's table of active subscribers and
//! replicas, keyed by subscriber, with keep-alive and expiry times.
//!
//! An entry is created when a subscribe or replicate request is accepted,
//! refreshed in place by each keep-alive, and removed by an explicit
//! unsubscribe or by lapsing past its expiry time.

use vstd::prelude::*;

use crate::service::{QosPriority, SubscriptionInfo, SubscriptionKind};
use crate::types::{bytes_eq, Id, Timestamp};

verus! {

/// Subscriber operations a client can request of the daemon.
#[derive(Clone, Debug)]
pub enum SubscriberCommands {
    /// List all subscribers.
    List,
}

/// Two subscription keys identify the same subscriber.
pub open spec fn kind_matches(a: SubscriptionKind, b: SubscriptionKind) -> bool {
    match (a, b) {
        (SubscriptionKind::Peer(x), SubscriptionKind::Peer(y)) => x@ == y@,
        (SubscriptionKind::Socket(x), SubscriptionKind::Socket(y)) => x == y,
        (SubscriptionKind::Unspecified, SubscriptionKind::Unspecified) => true,
        _ => false,
    }
}

/// Whether two subscription keys identify the same subscriber.
pub fn kind_eq(a: &SubscriptionKind, b: &SubscriptionKind) -> (r: bool)
    ensures
        r == kind_matches(*a, *b),
{
    match (a, b) {
        (SubscriptionKind::Peer(x), SubscriptionKind::Peer(y)) => bytes_eq(&x.bytes, &y.bytes),
        (SubscriptionKind::Socket(x), SubscriptionKind::Socket(y)) => x == y,
        (SubscriptionKind::Unspecified, SubscriptionKind::Unspecified) => true,
        _ => false,
    }
}

/// No two entries of `s` are keyed by the same subscriber.
pub open spec fn distinct_kinds(s: Seq<SubscriptionInfo>) -> bool {
    forall|i: int, j: int| 0 <= i < j < s.len() ==> !kind_matches(s[i].kind, s[j].kind)
}

/// The entry has lapsed at time `now`.
pub open spec fn entry_expired(e: SubscriptionInfo, now: Timestamp) -> bool {
    e.expiry matches Some(x) && x < now
}

/// The entries of `s` that have not lapsed at `now`, in order.
pub open spec fn live_entries(s: Seq<SubscriptionInfo>, now: Timestamp) -> Seq<SubscriptionInfo>
    decreases s.len(),
{
    if s.len() == 0 {
        Seq::empty()
    } else {
        let rest = live_entries(s.drop_last(), now);
        if entry_expired(s.last(), now) {
            rest
        } else {
            rest.push(s.last())
        }
    }
}

/// Every live entry is an entry of the original ledger.
proof fn lemma_live_entries_membership(s: Seq<SubscriptionInfo>, now: Timestamp)
    ensures
        forall|k: int|
            0 <= k < live_entries(s, now).len() ==> exists|j: int|
                0 <= j < s.len() && #[trigger] live_entries(s, now)[k] == s[j],
    decreases s.len(),
{
    if s.len() > 0 {
        lemma_live_entries_membership(s.drop_last(), now);
        assert forall|k: int| 0 <= k < live_entries(s, now).len() implies exists|j: int|
            0 <= j < s.len() && #[trigger] live_entries(s, now)[k] == s[j] by {
            let pre = live_entries(s.drop_last(), now);
            if k < pre.len() {
                let j = choose|j: int|
                    0 <= j < s.drop_last().len() && pre[k] == s.drop_last()[j];
                assert(live_entries(s, now)[k] == s[j]);
            } else {
                assert(live_entries(s, now)[k] == s[s.len() - 1]);
            }
        }
    }
}

/// Dropping lapsed entries keeps the ledger's keys distinct.
proof fn lemma_live_entries_distinct(s: Seq<SubscriptionInfo>, now: Timestamp)
    requires
        distinct_kinds(s),
    ensures
        distinct_kinds(live_entries(s, now)),
    decreases s.len(),
{
    if s.len() > 0 {
        let pre = s.drop_last();
        assert(distinct_kinds(pre)) by {
            assert(forall|i: int| 0 <= i < pre.len() ==> pre[i] == s[i]);
        }
        lemma_live_entries_distinct(pre, now);
        if !entry_expired(s.last(), now) {
            lemma_live_entries_membership(pre, now);
            let live_pre = live_entries(pre, now);
            assert forall|k: int| 0 <= k < live_pre.len() implies !kind_matches(
                live_pre[k].kind,
                s.last().kind,
            ) by {
                let j = choose|j: int| 0 <= j < pre.len() && live_pre[k] == pre[j];
                assert(pre[j] == s[j]);
                assert(!kind_matches(s[j].kind, s[s.len() - 1].kind));
            }
        }
    }
}

/// The entry stored after a keep-alive at `now` refreshes `e`: the
/// subscriber and service are unchanged, the keep-alive time, expiry and
/// delivery preference are replaced.
pub open spec fn refreshed_entry(
    e: SubscriptionInfo,
    now: Timestamp,
    expiry: Option<Timestamp>,
    qos: QosPriority,
) -> SubscriptionInfo {
    SubscriptionInfo { service_id: e.service_id, kind: e.kind, updated: Some(now), expiry, qos }
}

/// A service's ledger of active subscribers and replicas, at most one
/// entry per subscriber.
pub struct SubscriptionLedger {
    entries: Vec<SubscriptionInfo>,
}

impl View for SubscriptionLedger {
    type V = Seq<SubscriptionInfo>;

    /// The entries, in order of first acceptance.
    closed spec fn view(&self) -> Seq<SubscriptionInfo> {
        self.entries@
    }
}

impl SubscriptionLedger {
    /// Entries are keyed by subscriber: no subscriber appears twice.
    pub open spec fn wf(&self) -> bool {
        distinct_kinds(self@)
    }

    /// An empty ledger.
    pub fn new() -> (r: SubscriptionLedger)
        ensures
            r@ == Seq::<SubscriptionInfo>::empty(),
            r.wf(),
    {
        SubscriptionLedger { entries: Vec::new() }
    }

    /// How many subscribers and replicas are active.
    pub fn count(&self) -> (r: usize)
        ensures
            r == self@.len(),
    {
        self.entries.len()
    }

    /// The entry at a slot, for walking the ledger.
    pub fn entry(&self, i: usize) -> (r: &SubscriptionInfo)
        requires
            i < self@.len(),
        ensures
            *r == self@[i as int],
    {
        &self.entries[i]
    }

    /// The slot of the subscriber's entry, when one is active.
    #[verifier::loop_isolation(false)]
    fn find(&self, kind: &SubscriptionKind) -> (r: Option<usize>)
        ensures
            (match r {
                Option::Some(i) => 0 <= i < self@.len() && kind_matches(self@[i as int].kind, *kind),
                Option::None => forall|j: int|
                    0 <= j < self@.len() ==> !kind_matches(self@[j].kind, *kind),
            }),
    {
        let mut i: usize = 0;
        while i < self.entries.len()
            invariant
                i <= self@.len(),
                forall|j: int| 0 <= j < i ==> !kind_matches(self@[j].kind, *kind),
            decreases self@.len() - i,
        {
            if kind_eq(&self.entries[i].kind, kind) {
                return Some(i);
            }
            i += 1;
        }
        None
    }

    /// Accept a subscription or fold in a keep-alive: a subscriber not yet
    /// in the ledger is appended with `now` as its keep-alive time, and a
    /// subscriber already present has its single entry refreshed in place,
    /// keeping its slot.
    #[verifier::loop_isolation(false)]
    pub fn subscribe(
        &mut self,
        service_id: Id,
        kind: SubscriptionKind,
        now: Timestamp,
        expiry: Option<Timestamp>,
        qos: QosPriority,
    )
        requires
            old(self).wf(),
        ensures
            final (self).wf(),
            (forall|j: int|
                0 <= j < old(self)@.len() ==> !kind_matches(old(self)@[j].kind, kind)) ==> final (
            self)@ == old(self)@.push(
                (SubscriptionInfo { service_id, kind, updated: Some(now), expiry, qos }),
            ),
            forall|i: int|
                0 <= i < old(self)@.len() && kind_matches(old(self)@[i].kind, kind) ==> final (
                self)@ == old(self)@.update(i, refreshed_entry(old(self)@[i], now, expiry, qos)),
    {
        let found = self.find(&kind);
        match found {
            Option::Some(i) => {
                let e = self.entries.remove(i);
                let e2 = SubscriptionInfo {
                    service_id: e.service_id,
                    kind: e.kind,
                    updated: Some(now),
                    expiry,
                    qos,
                };
                self.entries.insert(i, e2);
                proof {
                    assert(self@ =~= old(self)@.update(
                        i as int,
                        refreshed_entry(old(self)@[i as int], now, expiry, qos),
                    ));
                    assert forall|a: int, b: int| 0 <= a < b < self@.len() implies !kind_matches(
                        self@[a].kind,
                        self@[b].kind,
                    ) by {
                        assert(kind_matches(old(self)@[i as int].kind, kind));
                    }
                    assert forall|i2: int|
                        0 <= i2 < old(self)@.len() && kind_matches(
                            old(self)@[i2].kind,
                            kind,
                        ) implies self@ == old(self)@.update(
                        i2,
                        refreshed_entry(old(self)@[i2], now, expiry, qos),
                    ) by {
                        if i2 != i as int {
                            assert(!kind_matches(old(self)@[i as int].kind, old(self)@[i2].kind)
                                || !kind_matches(old(self)@[i2].kind, old(self)@[i as int].kind));
                        }
                    }
                }
            },
            Option::None => {
                self.entries.push(SubscriptionInfo { service_id, kind, updated: Some(now), expiry, qos });
            },
        }
    }

    /// Remove the subscriber's entry, if one is active; the rest of the
    /// ledger keeps its order.
    pub fn unsubscribe(&mut self, kind: &SubscriptionKind) -> (removed: bool)
        requires
            old(self).wf(),
        ensures
            final (self).wf(),
            (forall|j: int|
                0 <= j < old(self)@.len() ==> !kind_matches(old(self)@[j].kind, *kind)) ==> {
                &&& !removed
                &&& final (self)@ == old(self)@
            },
            forall|i: int|
                0 <= i < old(self)@.len() && kind_matches(old(self)@[i].kind, *kind) ==> {
                    &&& removed
                    &&& final (self)@ == old(self)@.remove(i)
                },
    {
        let found = self.find(kind);
        match found {
            Option::Some(i) => {
                self.entries.remove(i);
                proof {
                    let s = old(self)@;
                    let ix = i as int;
                    assert(forall|a: int|
                        0 <= a < self@.len() ==> self@[a] == (if a < ix {
                            s[a]
                        } else {
                            s[a + 1]
                        }));
                    assert forall|i2: int|
                        0 <= i2 < s.len() && kind_matches(s[i2].kind, *kind) implies self@
                        == s.remove(i2) by {
                        if i2 != ix {
                            assert(!kind_matches(s[ix].kind, s[i2].kind) || !kind_matches(
                                s[i2].kind,
                                s[ix].kind,
                            ));
                        }
                    }
                }
                true
            },
            Option::None => false,
        }
    }

    /// Drop every entry that has lapsed at `now`; the live entries keep
    /// their order.
    #[verifier::loop_isolation(false)]
    pub fn expire(&mut self, now: Timestamp)
        requires
            old(self).wf(),
        ensures
            final (self).wf(),
            final (self)@ == live_entries(old(self)@, now),
    {
        let ghost orig = old(self)@;
        let mut kept: Vec<SubscriptionInfo> = Vec::new();
        let ghost mut consumed: int = 0;
        while self.entries.len() > 0
            invariant
                0 <= consumed <= orig.len(),
                self.entries@ =~= orig.skip(consumed),
                kept@ == live_entries(orig.take(consumed), now),
            decreases self.entries@.len(),
        {
            let e = self.entries.remove(0);
            proof {
                assert(e == orig[consumed]);
                assert(orig.take(consumed + 1).drop_last() =~= orig.take(consumed));
                assert(orig.take(consumed + 1).last() == orig[consumed]);
                assert(self.entries@ =~= orig.skip(consumed + 1));
            }
            let lapsed = match e.expiry {
                Option::Some(x) => x < now,
                Option::None => false,
            };
            if !lapsed {
                kept.push(e);
            }
            proof {
                consumed = consumed + 1;
            }
        }
        proof {
            assert(orig.take(orig.len() as int) =~= orig);
        }
        self.entries = kept;
        proof {
            lemma_live_entries_distinct(orig, now);
        }
    }
}

} // verus!
