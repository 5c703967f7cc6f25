//! Peer record reconciliation: the address merge rule, monotone
//! observation times, and key-exchange handling.

use dsf_client::{Address, Error, Id, PeerAddress, PeerInfo, PeerState, PublicKey};

fn addr(tag: u8) -> Address {
    Address::new(vec![10, 0, 0, tag], 10100)
}

fn peer_with(address: PeerAddress) -> PeerInfo {
    PeerInfo::new(
        Id::new(vec![1, 2, 3]),
        address,
        PeerState::Unknown,
        0,
        None,
    )
}

#[test]
fn explicit_incoming_replaces_implicit_current() {
    let mut p = peer_with(PeerAddress::Implicit(addr(1)));
    p.update_address(PeerAddress::Explicit(addr(2)));
    assert_eq!(p.address, PeerAddress::Explicit(addr(2)));
}

#[test]
fn explicit_incoming_replaces_explicit_current() {
    let mut p = peer_with(PeerAddress::Explicit(addr(1)));
    p.update_address(PeerAddress::Explicit(addr(2)));
    assert_eq!(p.address, PeerAddress::Explicit(addr(2)));
}

#[test]
fn implicit_incoming_replaces_implicit_current() {
    let mut p = peer_with(PeerAddress::Implicit(addr(1)));
    p.update_address(PeerAddress::Implicit(addr(2)));
    assert_eq!(p.address, PeerAddress::Implicit(addr(2)));
}

#[test]
fn implicit_incoming_never_displaces_explicit_current() {
    let mut p = peer_with(PeerAddress::Explicit(addr(1)));
    p.update_address(PeerAddress::Implicit(addr(2)));
    assert_eq!(p.address, PeerAddress::Explicit(addr(1)));
}

#[test]
fn end_to_end_address_reconciliation() {
    // Create with Implicit(A); observe Explicit(B): address becomes B;
    // observe Implicit(C): address remains B.
    let mut p = peer_with(PeerAddress::Implicit(addr(1)));
    p.update_address(PeerAddress::Explicit(addr(2)));
    assert_eq!(p.address, PeerAddress::Explicit(addr(2)));
    p.update_address(PeerAddress::Implicit(addr(3)));
    assert_eq!(p.address, PeerAddress::Explicit(addr(2)));
    assert_eq!(*p.address(), addr(2));
}

#[test]
fn address_accessor_unwraps_provenance() {
    let p = peer_with(PeerAddress::Implicit(addr(7)));
    assert_eq!(*p.address(), addr(7));
    let q = peer_with(PeerAddress::Explicit(addr(9)));
    assert_eq!(*q.address(), addr(9));
}

#[test]
fn seen_is_monotone() {
    // An observation at t1, then a late-arriving one at t0 < t1, leaves
    // seen == t1.
    let mut p = peer_with(PeerAddress::Implicit(addr(1)));
    assert_eq!(p.seen(), None);
    p.set_seen(1000);
    assert_eq!(p.seen(), Some(1000));
    p.set_seen(400);
    assert_eq!(p.seen(), Some(1000));
    p.set_seen(2000);
    assert_eq!(p.seen(), Some(2000));
}

#[test]
fn key_exchange_moves_unknown_to_known() {
    let mut p = peer_with(PeerAddress::Implicit(addr(1)));
    let key = PublicKey::new(vec![9, 9, 9]);
    assert!(p.observe_key(key.clone()).is_ok());
    assert_eq!(*p.state(), PeerState::Known(key));
}

#[test]
fn same_key_again_is_a_no_op() {
    let mut p = peer_with(PeerAddress::Implicit(addr(1)));
    let key = PublicKey::new(vec![9, 9, 9]);
    p.observe_key(key.clone()).unwrap();
    assert!(p.observe_key(key.clone()).is_ok());
    assert_eq!(*p.state(), PeerState::Known(key));
}

#[test]
fn different_key_is_surfaced_not_applied() {
    let mut p = peer_with(PeerAddress::Implicit(addr(1)));
    let key = PublicKey::new(vec![9, 9, 9]);
    let other = PublicKey::new(vec![8, 8, 8]);
    p.observe_key(key.clone()).unwrap();
    assert_eq!(p.observe_key(other), Err(Error::KeyMismatch));
    assert_eq!(*p.state(), PeerState::Known(key));
}

#[test]
fn new_peer_record_starts_clean() {
    let p = peer_with(PeerAddress::Implicit(addr(1)));
    assert_eq!(p.sent, 0);
    assert_eq!(p.received, 0);
    assert!(!p.blocked);
    assert_eq!(p.index, 0);
    assert_eq!(*p.state(), PeerState::Unknown);
}

#[test]
fn set_state_is_one_way() {
    let mut p = peer_with(PeerAddress::Implicit(addr(1)));
    let key = PublicKey::new(vec![5]);
    let other = PublicKey::new(vec![6]);
    // An unknown peer accepts any observation.
    assert!(p.set_state(PeerState::Known(key.clone())).is_ok());
    assert_eq!(*p.state(), PeerState::Known(key.clone()));
    // The same key again is a no-op.
    assert!(p.set_state(PeerState::Known(key.clone())).is_ok());
    assert_eq!(*p.state(), PeerState::Known(key.clone()));
    // A different key is surfaced, never applied silently.
    assert_eq!(
        p.set_state(PeerState::Known(other)),
        Err(Error::KeyMismatch)
    );
    assert_eq!(*p.state(), PeerState::Known(key.clone()));
    // Dropping the learned key is refused too: the transition is one-way.
    assert_eq!(p.set_state(PeerState::Unknown), Err(Error::KeyMismatch));
    assert_eq!(*p.state(), PeerState::Known(key));
}

#[test]
fn set_state_unknown_on_unknown_is_a_no_op() {
    let mut p = peer_with(PeerAddress::Implicit(addr(1)));
    assert!(p.set_state(PeerState::Unknown).is_ok());
    assert_eq!(*p.state(), PeerState::Unknown);
}
