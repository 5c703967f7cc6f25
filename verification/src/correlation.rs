//! Caller-side correlation of asynchronous responses to outstanding
//! requests.
//!
//! The transport may reorder, drop or duplicate replies. Each request
//! carries a caller-chosen correlation id; the table maps every
//! outstanding id to a token designating its waiting caller. A response
//! resolves and removes exactly the waiter registered under its id, a
//! timeout or cancellation removes the entry the same way, and a response
//! whose id matches no outstanding entry is dropped without effect.

use vstd::prelude::*;

use std::collections::HashMap;

verus! {

/// Table of outstanding requests, keyed by correlation id. The waiter
/// type `W` is whatever token the caller uses to find the suspended
/// computation again.
pub struct CorrelationTable<W> {
    waiters: HashMap<u64, W>,
}

impl<W> View for CorrelationTable<W> {
    type V = Map<u64, W>;

    /// The outstanding entries: request id to waiting caller.
    closed spec fn view(&self) -> Map<u64, W> {
        self.waiters@
    }
}

impl<W> CorrelationTable<W> {
    /// An empty table: nothing is outstanding.
    pub fn new() -> (r: CorrelationTable<W>)
        ensures
            r@ == Map::<u64, W>::empty(),
    {
        CorrelationTable { waiters: HashMap::new() }
    }

    /// Register a waiter under a fresh request id. The registration is
    /// refused, and the table unchanged, when the id collides with one
    /// still outstanding; ids are caller-random, so the caller redraws.
    pub fn register(&mut self, req_id: u64, waiter: W) -> (fresh: bool)
        ensures
            fresh == !old(self)@.contains_key(req_id),
            fresh ==> final (self)@ == old(self)@.insert(req_id, waiter),
            !fresh ==> final (self)@ == old(self)@,
    {
        if self.waiters.contains_key(&req_id) {
            false
        } else {
            self.waiters.insert(req_id, waiter);
            true
        }
    }

    /// Resolve the waiter registered under `req_id`, removing its entry:
    /// exactly the matching waiter comes back, and an id with no
    /// outstanding entry (already resolved, cancelled, or never issued)
    /// resolves nothing and leaves the table unchanged.
    pub fn resolve(&mut self, req_id: u64) -> (w: Option<W>)
        ensures
            (match w {
                Option::Some(waiter) => {
                    &&& old(self)@.contains_key(req_id)
                    &&& waiter == old(self)@[req_id]
                    &&& final (self)@ == old(self)@.remove(req_id)
                },
                Option::None => {
                    &&& !old(self)@.contains_key(req_id)
                    &&& final (self)@ == old(self)@
                },
            }),
    {
        let w = self.waiters.remove(&req_id);
        proof {
            if !old(self)@.contains_key(req_id) {
                assert(old(self)@.remove(req_id) =~= old(self)@);
            }
        }
        w
    }

    /// Accept a response from the transport: resolve the waiter
    /// registered under the response's correlation id, if any. A response
    /// matching no outstanding request — stale, duplicated, or cancelled —
    /// resolves nothing and is thereby dropped without error.
    pub fn accept(&mut self, resp: &crate::Response) -> (w: Option<W>)
        ensures
            (match w {
                Option::Some(waiter) => {
                    &&& old(self)@.contains_key(resp.spec_req_id())
                    &&& waiter == old(self)@[resp.spec_req_id()]
                    &&& final (self)@ == old(self)@.remove(resp.spec_req_id())
                },
                Option::None => {
                    &&& !old(self)@.contains_key(resp.spec_req_id())
                    &&& final (self)@ == old(self)@
                },
            }),
    {
        self.resolve(resp.req_id())
    }

    /// Cancel the entry under `req_id`, if one is outstanding; any
    /// response arriving for it later finds no waiter and is dropped.
    pub fn cancel(&mut self, req_id: u64) -> (removed: bool)
        ensures
            removed == old(self)@.contains_key(req_id),
            final (self)@ == old(self)@.remove(req_id),
    {
        let w = self.waiters.remove(&req_id);
        proof {
            if !old(self)@.contains_key(req_id) {
                assert(old(self)@.remove(req_id) =~= old(self)@);
            }
        }
        w.is_some()
    }

    /// Whether a waiter is outstanding under `req_id`.
    pub fn is_outstanding(&self, req_id: u64) -> (r: bool)
        ensures
            r == self@.contains_key(req_id),
    {
        self.waiters.contains_key(&req_id)
    }

    /// How many requests are outstanding.
    pub fn outstanding(&self) -> (r: usize)
        ensures
            r == self@.len(),
    {
        self.waiters.len()
    }
}

} // verus!
