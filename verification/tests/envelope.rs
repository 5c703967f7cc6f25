//! The request/response envelope and payload helpers.

use dsf_client::{
    data_from_str, split_key_value, Error, Id, Request, RequestKind, Response, ResponseKind,
    StatusInfo,
};

#[test]
fn request_carries_its_kind() {
    let req = Request::new(RequestKind::Status);
    assert!(matches!(req.kind(), RequestKind::Status));
}

#[test]
fn request_with_id_carries_both_fields() {
    let req = Request::with_id(12345, RequestKind::Status);
    assert_eq!(req.req_id(), 12345);
    assert!(matches!(req.kind(), RequestKind::Status));
}

#[test]
fn response_correlates_by_req_id() {
    let req = Request::new(RequestKind::Status);
    let info = StatusInfo { id: Id::new(vec![1]), peers: 3, services: 2 };
    let resp = Response::new(req.req_id(), ResponseKind::Status(info));
    assert_eq!(resp.req_id(), req.req_id());
    assert!(resp.answers(&req));
    let stale = Response::new(req.req_id().wrapping_add(1), ResponseKind::Empty);
    assert!(!stale.answers(&req));
}

#[test]
fn response_carries_its_kind() {
    let resp = Response::new(7, ResponseKind::Error(Error::Timeout));
    assert_eq!(resp.req_id(), 7);
    assert!(matches!(resp.kind(), ResponseKind::Error(Error::Timeout)));
}

#[test]
fn data_from_str_takes_the_bytes() {
    assert_eq!(data_from_str("abc"), vec![0x61, 0x62, 0x63]);
    assert_eq!(data_from_str(""), Vec::<u8>::new());
}

#[test]
fn split_key_value_accepts_exactly_one_separator() {
    let r = split_key_value(&b"key:value".to_vec()).unwrap();
    assert_eq!(r.0, b"key".to_vec());
    assert_eq!(r.1, b"value".to_vec());
}

#[test]
fn split_key_value_allows_empty_sides() {
    let r = split_key_value(&b":".to_vec()).unwrap();
    assert_eq!(r.0, Vec::<u8>::new());
    assert_eq!(r.1, Vec::<u8>::new());
}

#[test]
fn split_key_value_rejects_malformed_input() {
    assert_eq!(split_key_value(&b"novalue".to_vec()), Err(Error::InvalidIdentifier));
    assert_eq!(split_key_value(&b"a:b:c".to_vec()), Err(Error::InvalidIdentifier));
    assert_eq!(split_key_value(&Vec::new()), Err(Error::InvalidIdentifier));
}
