//! Identifier resolution against a directory of record identities.

use dsf_client::{Error, Id, ServiceIdentifier};

fn directory() -> Vec<Id> {
    vec![
        Id::new(vec![0xaa]),
        Id::new(vec![0xbb]),
        Id::new(vec![0xcc]),
    ]
}

#[test]
fn resolves_by_id() {
    let ident = ServiceIdentifier::id(Id::new(vec![0xbb]));
    assert_eq!(ident.resolve(&directory()), Ok(1));
}

#[test]
fn id_takes_precedence_over_index() {
    // Identifier{id: Some(x), index: Some(y)} resolves by x, ignoring y.
    let ident = ServiceIdentifier {
        id: Some(Id::new(vec![0xcc])),
        index: Some(0),
    };
    assert_eq!(ident.resolve(&directory()), Ok(2));
}

#[test]
fn unknown_id_is_not_found_even_with_index() {
    let ident = ServiceIdentifier {
        id: Some(Id::new(vec![0x11])),
        index: Some(1),
    };
    assert_eq!(ident.resolve(&directory()), Err(Error::NotFound));
}

#[test]
fn resolves_by_index_in_range() {
    let ident = ServiceIdentifier::index(2);
    assert_eq!(ident.resolve(&directory()), Ok(2));
}

#[test]
fn index_out_of_range_is_not_found() {
    let ident = ServiceIdentifier::index(3);
    assert_eq!(ident.resolve(&directory()), Err(Error::NotFound));
}

#[test]
fn neither_id_nor_index_is_a_caller_error() {
    let ident = ServiceIdentifier { id: None, index: None };
    assert_eq!(ident.resolve(&directory()), Err(Error::InvalidIdentifier));
}

#[test]
fn first_matching_slot_wins() {
    let ids = vec![
        Id::new(vec![0xaa]),
        Id::new(vec![0xbb]),
        Id::new(vec![0xbb]),
    ];
    let ident = ServiceIdentifier::id(Id::new(vec![0xbb]));
    assert_eq!(ident.resolve(&ids), Ok(1));
}

#[test]
fn identifier_from_id() {
    let ident = ServiceIdentifier::from(Id::new(vec![0xee]));
    assert_eq!(ident.id, Some(Id::new(vec![0xee])));
    assert_eq!(ident.index, None);
}

#[test]
fn empty_directory_resolves_nothing() {
    let ids: Vec<Id> = Vec::new();
    assert_eq!(
        ServiceIdentifier::id(Id::new(vec![0xaa])).resolve(&ids),
        Err(Error::NotFound)
    );
    assert_eq!(
        ServiceIdentifier::index(0).resolve(&ids),
        Err(Error::NotFound)
    );
}
