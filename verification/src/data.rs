//! Data objects published to and fetched from services.

use vstd::prelude::*;

use crate::types::{Body, Container, Id, Signature};
use crate::{PageBounds, ServiceIdentifier, TimeBounds};

verus! {

/// Raw data payload.
pub type Data = Vec<u8>;

/// The signature views of an optional provenance signature.
pub open spec fn opt_sig_view(s: Option<Signature>) -> Option<Seq<u8>> {
    match s {
        Option::Some(x) => Option::Some(x@),
        Option::None => Option::None,
    }
}

/// One stored data object of a service, as reported to the client.
#[derive(Clone, Debug)]
pub struct DataInfo {
    /// The service the object belongs to.
    pub service: Id,
    /// Version index of the object.
    pub index: u16,
    /// The object's payload.
    pub body: Body,
    /// Signature of the preceding object, when the object has one.
    pub previous: Option<Signature>,
    /// Signature over the object.
    pub signature: Signature,
}

impl DataInfo {
    /// Read the fields of a wire container into a data record: the raw
    /// body is tagged according to the container's encryption flag, and
    /// identity, index and signatures carry over unchanged.
    pub fn from_page(page: &Container) -> (r: DataInfo)
        ensures
            r.service@ == page.id@,
            r.index == page.index,
            (match r.body {
                Body::Encrypted(raw) => page.encrypted && raw@ == page.body_raw@,
                Body::Cleartext(raw) => !page.encrypted && raw@ == page.body_raw@,
                Body::Empty => false,
            }),
            opt_sig_view(r.previous) == opt_sig_view(page.previous),
            r.signature@ == page.signature@,
    {
        let body = if page.encrypted {
            Body::Encrypted(crate::types::bytes_clone(&page.body_raw))
        } else {
            Body::Cleartext(crate::types::bytes_clone(&page.body_raw))
        };
        let previous = match &page.previous {
            Option::Some(p) => Some(p.clone()),
            Option::None => None,
        };
        DataInfo {
            service: page.id.clone(),
            index: page.index,
            body,
            previous,
            signature: page.signature.clone(),
        }
    }
}

/// Data operations a client can request of the daemon.
#[derive(Clone, Debug)]
pub enum DataCommands {
    /// List service data.
    List(ListOptions),
    /// Synchronize service data.
    Update {},
    /// Fetch data from a service.
    Query {},
    /// Publish data to a service.
    Publish(PublishOptions),
    /// Push pre-signed data for a known service.
    Push(PushOptions),
}

/// Options for listing a service's data.
#[derive(Clone, Debug)]
pub struct ListOptions {
    /// The service whose data is listed.
    pub service: ServiceIdentifier,
    /// Pagination of the listing.
    pub page_bounds: PageBounds,
    /// Time window of the listing.
    pub time_bounds: TimeBounds,
}

/// Options for publishing data to a service.
#[derive(Clone, Debug)]
pub struct PublishOptions {
    /// The service to publish under.
    pub service: ServiceIdentifier,
    /// Numeric kind of the data page.
    pub kind: u16,
    /// Data body.
    pub data: Option<Data>,
}

impl PublishOptions {
    /// Publish to the service with the given identity, with the generic
    /// page kind and no body.
    pub fn new(id: Id) -> (r: PublishOptions)
        ensures
            r.service.id == Some(id),
            r.service.index is None,
            r.kind == 0,
            r.data is None,
    {
        PublishOptions {
            service: ServiceIdentifier { id: Some(id), index: None },
            kind: 0,
            data: None,
        }
    }
}

/// Options for pushing pre-signed data for a known service.
#[derive(Clone, Debug)]
pub struct PushOptions {
    /// The service to push to.
    pub service: ServiceIdentifier,
    /// Encoded, pre-signed object.
    pub data: Data,
}

impl PushOptions {
    /// Push the given pre-signed object to the service with the given
    /// identity.
    pub fn new(id: Id, data: Vec<u8>) -> (r: PushOptions)
        ensures
            r.service.id == Some(id),
            r.service.index is None,
            r.data@ == data@,
    {
        PushOptions { service: ServiceIdentifier { id: Some(id), index: None }, data }
    }
}

/// Outcome of publishing data.
#[derive(Clone, Debug)]
pub struct PublishInfo {
    /// Version index assigned to the published object.
    pub index: u16,
}

} // verus!
