//! Identity primitives and shared data carried through the client contract.
//!
//! Identities, keys, signatures and hashes are produced by an external
//! cryptographic collaborator; the client treats each as an immutable byte
//! string with byte-for-byte equality and never inspects its structure.

use vstd::prelude::*;

verus! {

/// Seconds since the Unix epoch, as carried in peer and service records.
pub type Timestamp = u64;

/// Failure taxonomy for client calls.
#[derive(Clone, Copy, Debug, PartialEq, Eq, Structural)]
pub enum Error {
    /// The caller supplied neither an id nor an index, or the input was malformed.
    InvalidIdentifier,
    /// The identifier does not resolve to any record.
    NotFound,
    /// No response arrived within the caller's deadline.
    Timeout,
    /// An observation conflicted with a peer's established public key:
    /// a different key, or an attempt to drop the learned one.
    KeyMismatch,
}

/// Byte-for-byte comparison of two byte strings.
pub fn bytes_eq(a: &Vec<u8>, b: &Vec<u8>) -> (r: bool)
    ensures
        r == (a@ == b@),
{
    if a.len() != b.len() {
        return false;
    }
    let mut i: usize = 0;
    while i < a.len()
        invariant
            i <= a.len(),
            a@.len() == b@.len(),
            forall|j: int| 0 <= j < i ==> a@[j] == b@[j],
        decreases a.len() - i,
    {
        if a[i] != b[i] {
            return false;
        }
        i += 1;
    }
    proof {
        assert(a@ =~= b@);
    }
    true
}

/// Copy of a byte string.
pub fn bytes_clone(b: &Vec<u8>) -> (r: Vec<u8>)
    ensures
        r@ == b@,
{
    let r = b.clone();
    proof {
        assert forall|i: int| 0 <= i < r@.len() implies r@[i] == b@[i] by {
            assert(cloned::<u8>(b@[i], r@[i]));
        }
        assert(r@ =~= b@);
    }
    r
}

/// Global identity of a peer or service.
#[derive(Debug)]
pub struct Id {
    pub bytes: Vec<u8>,
}

impl Clone for Id {
    /// A clone carries the same bytes.
    fn clone(&self) -> (r: Id)
        ensures
            r@ == self@,
    {
        Id { bytes: bytes_clone(&self.bytes) }
    }
}

impl View for Id {
    type V = Seq<u8>;

    open spec fn view(&self) -> Seq<u8> {
        self.bytes@
    }
}

impl Id {
    pub fn new(bytes: Vec<u8>) -> (r: Id)
        ensures
            r@ == bytes@,
    {
        Id { bytes }
    }
}

impl PartialEq for Id {
    fn eq(&self, other: &Id) -> (r: bool) {
        bytes_eq(&self.bytes, &other.bytes)
    }
}

impl vstd::std_specs::cmp::PartialEqSpecImpl for Id {
    open spec fn obeys_eq_spec() -> bool {
        true
    }

    open spec fn eq_spec(&self, other: &Id) -> bool {
        self@ == other@
    }
}

/// Public half of a peer's or service's key pair.
#[derive(Debug)]
pub struct PublicKey {
    pub bytes: Vec<u8>,
}

impl Clone for PublicKey {
    /// A clone carries the same bytes.
    fn clone(&self) -> (r: PublicKey)
        ensures
            r@ == self@,
    {
        PublicKey { bytes: bytes_clone(&self.bytes) }
    }
}

impl View for PublicKey {
    type V = Seq<u8>;

    open spec fn view(&self) -> Seq<u8> {
        self.bytes@
    }
}

impl PublicKey {
    pub fn new(bytes: Vec<u8>) -> (r: PublicKey)
        ensures
            r@ == bytes@,
    {
        PublicKey { bytes }
    }
}

impl PartialEq for PublicKey {
    fn eq(&self, other: &PublicKey) -> (r: bool) {
        bytes_eq(&self.bytes, &other.bytes)
    }
}

impl vstd::std_specs::cmp::PartialEqSpecImpl for PublicKey {
    open spec fn obeys_eq_spec() -> bool {
        true
    }

    open spec fn eq_spec(&self, other: &PublicKey) -> bool {
        self@ == other@
    }
}

/// Private half of a service's key pair; held only by the origin node.
#[derive(Debug)]
pub struct PrivateKey {
    pub bytes: Vec<u8>,
}

impl Clone for PrivateKey {
    /// A clone carries the same bytes.
    fn clone(&self) -> (r: PrivateKey)
        ensures
            r@ == self@,
    {
        PrivateKey { bytes: bytes_clone(&self.bytes) }
    }
}

impl View for PrivateKey {
    type V = Seq<u8>;

    open spec fn view(&self) -> Seq<u8> {
        self.bytes@
    }
}

impl PrivateKey {
    pub fn new(bytes: Vec<u8>) -> (r: PrivateKey)
        ensures
            r@ == bytes@,
    {
        PrivateKey { bytes }
    }
}

impl PartialEq for PrivateKey {
    fn eq(&self, other: &PrivateKey) -> (r: bool) {
        bytes_eq(&self.bytes, &other.bytes)
    }
}

impl vstd::std_specs::cmp::PartialEqSpecImpl for PrivateKey {
    open spec fn obeys_eq_spec() -> bool {
        true
    }

    open spec fn eq_spec(&self, other: &PrivateKey) -> bool {
        self@ == other@
    }
}

/// Symmetric key granting read access to a service's encrypted pages.
#[derive(Debug)]
pub struct SecretKey {
    pub bytes: Vec<u8>,
}

impl Clone for SecretKey {
    /// A clone carries the same bytes.
    fn clone(&self) -> (r: SecretKey)
        ensures
            r@ == self@,
    {
        SecretKey { bytes: bytes_clone(&self.bytes) }
    }
}

impl View for SecretKey {
    type V = Seq<u8>;

    open spec fn view(&self) -> Seq<u8> {
        self.bytes@
    }
}

impl SecretKey {
    pub fn new(bytes: Vec<u8>) -> (r: SecretKey)
        ensures
            r@ == bytes@,
    {
        SecretKey { bytes }
    }
}

impl PartialEq for SecretKey {
    fn eq(&self, other: &SecretKey) -> (r: bool) {
        bytes_eq(&self.bytes, &other.bytes)
    }
}

impl vstd::std_specs::cmp::PartialEqSpecImpl for SecretKey {
    open spec fn obeys_eq_spec() -> bool {
        true
    }

    open spec fn eq_spec(&self, other: &SecretKey) -> bool {
        self@ == other@
    }
}

/// Detached signature over a page or object.
#[derive(Debug)]
pub struct Signature {
    pub bytes: Vec<u8>,
}

impl Clone for Signature {
    /// A clone carries the same bytes.
    fn clone(&self) -> (r: Signature)
        ensures
            r@ == self@,
    {
        Signature { bytes: bytes_clone(&self.bytes) }
    }
}

impl View for Signature {
    type V = Seq<u8>;

    open spec fn view(&self) -> Seq<u8> {
        self.bytes@
    }
}

impl Signature {
    pub fn new(bytes: Vec<u8>) -> (r: Signature)
        ensures
            r@ == bytes@,
    {
        Signature { bytes }
    }
}

impl PartialEq for Signature {
    fn eq(&self, other: &Signature) -> (r: bool) {
        bytes_eq(&self.bytes, &other.bytes)
    }
}

impl vstd::std_specs::cmp::PartialEqSpecImpl for Signature {
    open spec fn obeys_eq_spec() -> bool {
        true
    }

    open spec fn eq_spec(&self, other: &Signature) -> bool {
        self@ == other@
    }
}

/// Content hash used by the name service to address records.
#[derive(Debug)]
pub struct CryptoHash {
    pub bytes: Vec<u8>,
}

impl Clone for CryptoHash {
    /// A clone carries the same bytes.
    fn clone(&self) -> (r: CryptoHash)
        ensures
            r@ == self@,
    {
        CryptoHash { bytes: bytes_clone(&self.bytes) }
    }
}

impl View for CryptoHash {
    type V = Seq<u8>;

    open spec fn view(&self) -> Seq<u8> {
        self.bytes@
    }
}

impl CryptoHash {
    pub fn new(bytes: Vec<u8>) -> (r: CryptoHash)
        ensures
            r@ == bytes@,
    {
        CryptoHash { bytes }
    }
}

impl PartialEq for CryptoHash {
    fn eq(&self, other: &CryptoHash) -> (r: bool) {
        bytes_eq(&self.bytes, &other.bytes)
    }
}

impl vstd::std_specs::cmp::PartialEqSpecImpl for CryptoHash {
    open spec fn obeys_eq_spec() -> bool {
        true
    }

    open spec fn eq_spec(&self, other: &CryptoHash) -> bool {
        self@ == other@
    }
}

/// Network endpoint: raw address octets (4 for IPv4, 16 for IPv6) and a port.
#[derive(Debug)]
pub struct Address {
    pub octets: Vec<u8>,
    pub port: u16,
}

impl Clone for Address {
    /// A clone carries the same endpoint.
    fn clone(&self) -> (r: Address)
        ensures
            r@ == self@,
    {
        Address { octets: bytes_clone(&self.octets), port: self.port }
    }
}

impl View for Address {
    type V = (Seq<u8>, u16);

    open spec fn view(&self) -> (Seq<u8>, u16) {
        (self.octets@, self.port)
    }
}

impl Address {
    pub fn new(octets: Vec<u8>, port: u16) -> (r: Address)
        ensures
            r@ == (octets@, port),
    {
        Address { octets, port }
    }
}

impl PartialEq for Address {
    fn eq(&self, other: &Address) -> (r: bool) {
        bytes_eq(&self.octets, &other.octets) && self.port == other.port
    }
}

impl vstd::std_specs::cmp::PartialEqSpecImpl for Address {
    open spec fn obeys_eq_spec() -> bool {
        true
    }

    open spec fn eq_spec(&self, other: &Address) -> bool {
        self@ == other@
    }
}

/// Payload of a stored object, as the daemon hands it back: decrypted,
/// still encrypted, or absent.
#[derive(Clone, Debug)]
pub enum Body {
    Cleartext(Vec<u8>),
    Encrypted(Vec<u8>),
    Empty,
}

impl PartialEq for Body {
    fn eq(&self, other: &Body) -> (r: bool) {
        match (self, other) {
            (Body::Cleartext(a), Body::Cleartext(b)) => bytes_eq(a, b),
            (Body::Encrypted(a), Body::Encrypted(b)) => bytes_eq(a, b),
            (Body::Empty, Body::Empty) => true,
            _ => false,
        }
    }
}

impl vstd::std_specs::cmp::PartialEqSpecImpl for Body {
    open spec fn obeys_eq_spec() -> bool {
        true
    }

    open spec fn eq_spec(&self, other: &Body) -> bool {
        match (self, other) {
            (Body::Cleartext(a), Body::Cleartext(b)) => a@ == b@,
            (Body::Encrypted(a), Body::Encrypted(b)) => a@ == b@,
            (Body::Empty, Body::Empty) => true,
            _ => false,
        }
    }
}

/// A signed page or data object as carried on the wire, reduced to the
/// fields the client reads: identity, version index, raw body with its
/// encryption flag, and provenance signatures.
#[derive(Clone, Debug)]
pub struct Container {
    pub id: Id,
    pub index: u16,
    pub body_raw: Vec<u8>,
    pub encrypted: bool,
    pub previous: Option<Signature>,
    pub signature: Signature,
}

} // verus!
