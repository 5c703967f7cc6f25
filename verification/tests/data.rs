//! Data records read from wire containers, and the option builders.

use dsf_client::{
    Body, Container, CreateOptions, DataInfo, Id, LocateInfo, PageBounds, PublishOptions,
    PushOptions, RegisterOptions, Signature, TimeBounds,
};

fn container(encrypted: bool) -> Container {
    Container {
        id: Id::new(vec![0xab]),
        index: 4,
        body_raw: vec![1, 2, 3],
        encrypted,
        previous: Some(Signature::new(vec![0x01])),
        signature: Signature::new(vec![0x02]),
    }
}

#[test]
fn cleartext_page_reads_as_cleartext_body() {
    let d = DataInfo::from_page(&container(false));
    assert_eq!(d.service, Id::new(vec![0xab]));
    assert_eq!(d.index, 4);
    assert_eq!(d.body, Body::Cleartext(vec![1, 2, 3]));
    assert_eq!(d.previous, Some(Signature::new(vec![0x01])));
    assert_eq!(d.signature, Signature::new(vec![0x02]));
}

#[test]
fn encrypted_page_reads_as_encrypted_body() {
    let d = DataInfo::from_page(&container(true));
    assert_eq!(d.body, Body::Encrypted(vec![1, 2, 3]));
}

#[test]
fn publish_options_select_by_id() {
    let o = PublishOptions::new(Id::new(vec![0x11]));
    assert_eq!(o.service.id, Some(Id::new(vec![0x11])));
    assert_eq!(o.service.index, None);
    assert_eq!(o.kind, 0);
    assert_eq!(o.data, None);
}

#[test]
fn push_options_carry_the_data() {
    let o = PushOptions::new(Id::new(vec![0x11]), vec![9, 9]);
    assert_eq!(o.service.id, Some(Id::new(vec![0x11])));
    assert_eq!(o.data, vec![9, 9]);
}

#[test]
fn register_options_become_a_replica_by_default() {
    let o = RegisterOptions::new(Id::new(vec![0x22]));
    assert_eq!(o.service.id, Some(Id::new(vec![0x22])));
    assert!(!o.no_replica);
}

#[test]
fn create_options_default_to_a_private_unregistered_service() {
    let o = CreateOptions::default();
    assert_eq!(o.application_id, 0);
    assert_eq!(o.page_kind, None);
    assert!(o.addresses.is_empty());
    assert!(o.metadata.is_empty());
    assert!(!o.public);
    assert!(!o.register);
    let o = CreateOptions::default().and_register();
    assert!(o.register);
    assert!(!o.public);
}

#[test]
fn bounds_default_to_unbounded() {
    let p = PageBounds::default();
    assert_eq!(p.count, None);
    assert_eq!(p.offset, None);
    let t = TimeBounds::default();
    assert_eq!(t.from, None);
    assert_eq!(t.until, None);
}

#[test]
fn locate_info_defaults_to_nothing_located() {
    let l = LocateInfo::default();
    assert!(!l.origin);
    assert!(!l.updated);
    assert_eq!(l.page_version, 0);
    assert!(l.page.is_none());
}
