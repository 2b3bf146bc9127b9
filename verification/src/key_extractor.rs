//! From a request to the key that its quota is counted under.

use crate::method::Method;
use std::hash::Hash;
use vstd::prelude::*;
use vstd::std_specs::cmp::PartialEqSpecImpl;

verus! {

/// The IP address of the peer of a connection.
#[derive(Clone, Copy, Debug, PartialEq, Eq, Hash, Structural)]
pub enum PeerAddr {
    /// The four bytes of an IPv4 address, first byte highest.
    V4(u32),
    /// The sixteen bytes of an IPv6 address, first byte highest.
    V6(u128),
}

/// What a governor and its key extractor read of a request.
#[derive(Debug)]
pub struct RequestHead {
    pub method: Method,
    /// The address of the peer, where the connection has one.
    pub peer_addr: Option<PeerAddr>,
    pub path: String,
    /// The header fields, name and value, in the order of the request.
    pub headers: Vec<(String, String)>,
}

impl RequestHead {
    /// A request with a method and a peer, an empty path and no header fields.
    pub fn new(method: Method, peer_addr: Option<PeerAddr>) -> (request: Self)
        ensures
            request.method == method,
            request.peer_addr == peer_addr,
            request.path@.len() == 0,
            request.headers@.len() == 0,
    {
        RequestHead { method, peer_addr, path: String::new(), headers: Vec::new() }
    }
}

/// Why no key could be made of a request. This is a failure of the request,
/// neither an admission nor a denial.
#[derive(Clone, Copy, Debug, PartialEq, Eq, Structural)]
pub enum ExtractionError {
    /// The connection has no peer address.
    MissingAddress,
    /// The request lacks the attribute that the key is made of.
    MissingAttribute,
}

/// Makes the key of a request. An extractor reads the request and nothing
/// else, so the same request gives the same key; it is called once for every
/// request that is counted.
pub trait KeyExtractor: Clone {
    type Key: Clone + Hash + Eq;

    /// The key of `request`, or why it has none.
    fn extract(&self, request: &RequestHead) -> (key: Result<Self::Key, ExtractionError>);
}

/// The one key of [`GlobalKeyExtractor`].
#[derive(Clone, Copy, Debug, PartialEq, Eq, Hash, Structural)]
pub struct GlobalKey;

/// One key for every request: the whole service shares one quota.
#[derive(Clone, Copy, Debug)]
pub struct GlobalKeyExtractor;

impl PartialEq for GlobalKeyExtractor {
    /// The extractor holds nothing, so any two are equal.
    fn eq(&self, other: &Self) -> (equal: bool) {
        true
    }
}

impl PartialEqSpecImpl for GlobalKeyExtractor {
    open spec fn obeys_eq_spec() -> bool {
        true
    }

    open spec fn eq_spec(&self, other: &Self) -> bool {
        true
    }
}

impl Eq for GlobalKeyExtractor {

}

impl KeyExtractor for GlobalKeyExtractor {
    type Key = GlobalKey;

    fn extract(&self, request: &RequestHead) -> (key: Result<GlobalKey, ExtractionError>)
        ensures
            key == Ok::<GlobalKey, ExtractionError>(GlobalKey),
    {
        Ok(GlobalKey)
    }
}

/// The key that [`PeerIpKeyExtractor`] makes of a peer address.
pub open spec fn peer_key(peer_addr: Option<PeerAddr>) -> Result<PeerAddr, ExtractionError> {
    match peer_addr {
        Some(addr) => Ok(addr),
        None => Err(ExtractionError::MissingAddress),
    }
}

/// The address of the peer as the key: one quota per address.
#[derive(Clone, Copy, Debug)]
pub struct PeerIpKeyExtractor;

impl PartialEq for PeerIpKeyExtractor {
    /// The extractor holds nothing, so any two are equal.
    fn eq(&self, other: &Self) -> (equal: bool) {
        true
    }
}

impl PartialEqSpecImpl for PeerIpKeyExtractor {
    open spec fn obeys_eq_spec() -> bool {
        true
    }

    open spec fn eq_spec(&self, other: &Self) -> bool {
        true
    }
}

impl Eq for PeerIpKeyExtractor {

}

impl KeyExtractor for PeerIpKeyExtractor {
    type Key = PeerAddr;

    fn extract(&self, request: &RequestHead) -> (key: Result<PeerAddr, ExtractionError>)
        ensures
            key == peer_key(request.peer_addr),
    {
        match request.peer_addr {
            Some(addr) => Ok(addr),
            None => Err(ExtractionError::MissingAddress),
        }
    }
}

} // verus!
