//! Fetching stored pages by signature.

use vstd::prelude::*;

use crate::types::Signature;
use crate::ServiceIdentifier;

verus! {

/// Object (page) operations a client can request of the daemon.
#[derive(Clone, Debug)]
pub enum PageCommands {
    /// Fetch a page by signature.
    Fetch(FetchOptions),
}

/// Options for fetching a page.
#[derive(Clone, Debug)]
pub struct FetchOptions {
    /// The service the page belongs to.
    pub service: ServiceIdentifier,
    /// Signature of the page to fetch.
    pub page_sig: Signature,
}

} // verus!
