use actix_governor::key_extractor::ExtractionError;
use actix_governor::key_extractor::GlobalKey;
use actix_governor::key_extractor::PeerAddr;
use actix_governor::key_extractor::RequestHead;
use actix_governor::method::Method;
use actix_governor::GlobalKeyExtractor;
use actix_governor::KeyExtractor;
use actix_governor::PeerIpKeyExtractor;

#[test]
fn new_request_has_no_path_and_no_headers() {
    let request = RequestHead::new(Method::Get, Some(PeerAddr::V4(7)));
    assert_eq!(request.method, Method::Get);
    assert_eq!(request.peer_addr, Some(PeerAddr::V4(7)));
    assert!(request.path.is_empty());
    assert!(request.headers.is_empty());
}

#[test]
fn peer_extractor_takes_the_peer_address() {
    let v4 = RequestHead::new(Method::Get, Some(PeerAddr::V4(0xc0a8_0001)));
    let v6 = RequestHead::new(Method::Post, Some(PeerAddr::V6(1)));
    assert_eq!(PeerIpKeyExtractor.extract(&v4), Ok(PeerAddr::V4(0xc0a8_0001)));
    assert_eq!(PeerIpKeyExtractor.extract(&v6), Ok(PeerAddr::V6(1)));
    assert_eq!(PeerIpKeyExtractor.extract(&v4), PeerIpKeyExtractor.extract(&v4));
}

#[test]
fn peer_extractor_fails_without_a_peer_address() {
    let request = RequestHead::new(Method::Get, None);
    assert_eq!(PeerIpKeyExtractor.extract(&request), Err(ExtractionError::MissingAddress));
}

#[test]
fn global_extractor_gives_one_key_to_all() {
    let with_peer = RequestHead::new(Method::Get, Some(PeerAddr::V4(1)));
    let without = RequestHead::new(Method::Delete, None);
    assert_eq!(GlobalKeyExtractor.extract(&with_peer), Ok(GlobalKey));
    assert_eq!(GlobalKeyExtractor.extract(&without), Ok(GlobalKey));
}

#[derive(Clone)]
struct ApiKeyExtractor;

impl KeyExtractor for ApiKeyExtractor {
    type Key = String;

    fn extract(&self, request: &RequestHead) -> Result<String, ExtractionError> {
        request
            .headers
            .iter()
            .find(|(name, _)| name == "x-api-key")
            .map(|(_, value)| value.clone())
            .ok_or(ExtractionError::MissingAttribute)
    }
}

#[test]
fn custom_extractor_reads_a_header() {
    let mut request = RequestHead::new(Method::Get, None);
    assert_eq!(ApiKeyExtractor.extract(&request), Err(ExtractionError::MissingAttribute));
    request.headers.push((String::from("x-api-key"), String::from("k1")));
    assert_eq!(ApiKeyExtractor.extract(&request), Ok(String::from("k1")));
}
