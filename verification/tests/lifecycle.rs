//! The forward-only service lifecycle.

use dsf_client::{
    Id, PublicKey, ServiceEvent, ServiceInfo, ServiceState, Signature,
};

fn service() -> ServiceInfo {
    ServiceInfo::new(
        Id::new(vec![1]),
        0,
        PublicKey::new(vec![2]),
        None,
        None,
        false,
    )
}

fn sig(tag: u8) -> Signature {
    Signature::new(vec![tag; 4])
}

#[test]
fn fresh_service_starts_created() {
    let s = service();
    assert_eq!(s.state, ServiceState::Created);
    assert_eq!(s.primary_page, None);
    assert_eq!(s.replica_page, None);
    assert_eq!(s.subscribers, 0);
    assert_eq!(s.replicas, 0);
    assert!(!s.subscribed);
    assert!(!s.origin);
    assert_eq!(s.last_updated, None);
}

#[test]
fn forward_chain_advances() {
    let mut s = service();
    s.apply_event(ServiceEvent::Register(sig(1)));
    assert_eq!(s.state, ServiceState::Registered);
    assert_eq!(s.primary_page, Some(sig(1)));
    s.apply_event(ServiceEvent::Locate(None));
    assert_eq!(s.state, ServiceState::Located);
    s.apply_event(ServiceEvent::Subscribe);
    assert_eq!(s.state, ServiceState::Subscribed);
    assert!(s.subscribed);
}

#[test]
fn reported_milestone_never_regresses() {
    let mut s = service();
    s.apply_event(ServiceEvent::Subscribe);
    assert_eq!(s.state, ServiceState::Subscribed);
    // Lower milestones arriving later are no-ops for the state.
    s.apply_event(ServiceEvent::Register(sig(1)));
    assert_eq!(s.state, ServiceState::Subscribed);
    s.apply_event(ServiceEvent::Locate(None));
    assert_eq!(s.state, ServiceState::Subscribed);
}

#[test]
fn locate_without_registration_is_reached_directly() {
    // Located and Registered are independent milestones: a service can be
    // Located without this node ever registering it.
    let mut s = service();
    s.apply_event(ServiceEvent::Locate(Some(sig(7))));
    assert_eq!(s.state, ServiceState::Located);
    assert_eq!(s.replica_page, Some(sig(7)));
    assert_eq!(s.primary_page, None);
}

#[test]
fn late_registration_still_records_the_page() {
    let mut s = service();
    s.apply_event(ServiceEvent::Locate(None));
    s.apply_event(ServiceEvent::Register(sig(3)));
    // The state stays at the higher milestone, the page is recorded.
    assert_eq!(s.state, ServiceState::Located);
    assert_eq!(s.primary_page, Some(sig(3)));
}

#[test]
fn locate_without_replica_keeps_the_old_one() {
    let mut s = service();
    s.apply_event(ServiceEvent::Locate(Some(sig(7))));
    s.apply_event(ServiceEvent::Locate(None));
    assert_eq!(s.replica_page, Some(sig(7)));
    s.apply_event(ServiceEvent::Locate(Some(sig(8))));
    assert_eq!(s.replica_page, Some(sig(8)));
}

#[test]
fn advance_follows_precedence() {
    assert_eq!(
        ServiceState::Created.advance(ServiceState::Registered),
        ServiceState::Registered
    );
    assert_eq!(
        ServiceState::Registered.advance(ServiceState::Created),
        ServiceState::Registered
    );
    assert_eq!(
        ServiceState::Located.advance(ServiceState::Registered),
        ServiceState::Located
    );
    assert_eq!(
        ServiceState::Registered.advance(ServiceState::Located),
        ServiceState::Located
    );
    assert_eq!(
        ServiceState::Subscribed.advance(ServiceState::Located),
        ServiceState::Subscribed
    );
    assert_eq!(
        ServiceState::Created.advance(ServiceState::Created),
        ServiceState::Created
    );
}

#[test]
fn rank_orders_the_milestones() {
    assert!(ServiceState::Created.rank() < ServiceState::Registered.rank());
    assert!(ServiceState::Registered.rank() < ServiceState::Located.rank());
    assert!(ServiceState::Located.rank() < ServiceState::Subscribed.rank());
}
