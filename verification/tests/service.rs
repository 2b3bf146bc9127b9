use actix_governor::gcra::Decision;
use actix_governor::key_extractor::ExtractionError;
use actix_governor::key_extractor::PeerAddr;
use actix_governor::key_extractor::RequestHead;
use actix_governor::method::Method;
use actix_governor::middleware::Metadata;
use actix_governor::middleware::NoOpMiddleware;
use actix_governor::middleware::StateInformationMiddleware;
use actix_governor::quota::Quota;
use actix_governor::service::respond;
use actix_governor::service::Response;
use actix_governor::service::Route;
use actix_governor::GlobalKeyExtractor;
use actix_governor::Governor;
use actix_governor::GovernorConfigBuilder;
use actix_governor::GovernorMiddleware;
use actix_governor::PeerIpKeyExtractor;

const SECOND: u64 = 1_000_000_000;

fn get(peer: u32) -> RequestHead {
    RequestHead::new(Method::Get, Some(PeerAddr::V4(peer)))
}

fn post(peer: u32) -> RequestHead {
    RequestHead::new(Method::Post, Some(PeerAddr::V4(peer)))
}

fn forwarded(limit: u32, remaining: u32, reset_after: u64) -> Result<Response, ExtractionError> {
    Ok(Response::Forward {
        metadata: Metadata {
            limit: Some(limit),
            remaining: Some(remaining),
            reset_after: Some(reset_after),
            retry_after: None,
            whitelisted: false,
        },
    })
}

fn with_headers(
    seconds: u64,
    burst_size: u32,
    methods: Option<Vec<Method>>,
) -> GovernorMiddleware<&'static str, PeerIpKeyExtractor, StateInformationMiddleware> {
    let mut builder = GovernorConfigBuilder::default();
    builder.per_second(seconds).burst_size(burst_size);
    if let Some(methods) = methods {
        builder.methods(methods);
    }
    let config = builder.use_headers().finish().unwrap();
    Governor::new(&config).new_transform("service")
}

#[test]
fn five_at_once_then_one_too_many_then_one_unit_back() {
    let middleware = with_headers(2, 5, None);
    for done in 0..5u32 {
        assert_eq!(
            middleware.evaluate_at(&get(1), 0),
            forwarded(5, 4 - done, (done as u64 + 1) * 2 * SECOND)
        );
    }
    assert_eq!(
        middleware.evaluate_at(&get(1), SECOND / 10),
        Ok(Response::TooManyRequests {
            retry_after_secs: 2,
            metadata: Metadata {
                limit: Some(5),
                remaining: Some(0),
                reset_after: None,
                retry_after: Some(2 * SECOND - SECOND / 10),
                whitelisted: false,
            },
        })
    );
    assert_eq!(
        middleware.evaluate_at(&get(1), 2 * SECOND + SECOND / 10),
        forwarded(5, 0, 10 * SECOND - SECOND / 10)
    );
}

#[test]
fn without_headers_only_a_denial_reports() {
    let config = GovernorConfigBuilder::default().per_second(3).burst_size(1).finish().unwrap();
    let middleware = Governor::new(&config).new_transform(());
    assert_eq!(
        middleware.evaluate_at(&get(1), 0),
        Ok(Response::Forward { metadata: Metadata::empty() })
    );
    assert_eq!(
        middleware.evaluate_at(&get(1), SECOND / 2),
        Ok(Response::TooManyRequests {
            retry_after_secs: 3,
            metadata: Metadata {
                limit: None,
                remaining: None,
                reset_after: None,
                retry_after: Some(3 * SECOND - SECOND / 2),
                whitelisted: false,
            },
        })
    );
}

#[test]
fn method_outside_the_list_passes_and_takes_no_unit() {
    let middleware = with_headers(3600, 2, Some(vec![Method::Get]));
    let bypass = Ok(Response::Forward {
        metadata: Metadata {
            limit: None,
            remaining: None,
            reset_after: None,
            retry_after: None,
            whitelisted: true,
        },
    });
    for _ in 0..100 {
        assert_eq!(middleware.evaluate_at(&post(1), 0), bypass);
        assert_eq!(middleware.evaluate(&post(1)), bypass);
    }
    assert!(middleware.limiter().is_empty());
    assert_eq!(middleware.evaluate_at(&get(1), 0), forwarded(2, 1, 3600 * SECOND));
    assert_eq!(middleware.evaluate_at(&get(1), 0), forwarded(2, 0, 7200 * SECOND));
    assert!(matches!(
        middleware.evaluate_at(&get(1), 0),
        Ok(Response::TooManyRequests { retry_after_secs: 3600, .. })
    ));
    assert_eq!(middleware.evaluate_at(&post(1), 0), bypass);
}

#[test]
fn method_outside_the_list_passes_without_a_key() {
    let middleware = with_headers(1, 1, Some(vec![Method::Get]));
    let no_peer = RequestHead::new(Method::Post, None);
    assert!(matches!(middleware.route(&no_peer), Route::Bypass));
    assert!(matches!(middleware.evaluate_at(&no_peer, 0), Ok(Response::Forward { .. })));
}

#[test]
fn bypass_without_headers_reports_nothing() {
    let mut builder = GovernorConfigBuilder::default();
    builder.methods(vec![Method::Get]);
    let config = builder.finish().unwrap();
    let middleware = Governor::new(&config).new_transform(());
    assert_eq!(
        middleware.evaluate_at(&post(1), 0),
        Ok(Response::Forward { metadata: Metadata::empty() })
    );
}

#[test]
fn request_without_a_key_fails() {
    let middleware = with_headers(1, 1, None);
    let no_peer = RequestHead::new(Method::Get, None);
    assert!(matches!(middleware.route(&no_peer), Route::Fail(ExtractionError::MissingAddress)));
    assert_eq!(middleware.evaluate_at(&no_peer, 0), Err(ExtractionError::MissingAddress));
    assert_eq!(middleware.evaluate(&no_peer), Err(ExtractionError::MissingAddress));
    assert!(middleware.limiter().is_empty());
}

#[test]
fn route_of_a_counted_request_carries_its_key() {
    let middleware = with_headers(1, 1, Some(vec![Method::Get]));
    assert!(matches!(middleware.route(&get(77)), Route::Check(PeerAddr::V4(77))));
}

#[test]
fn peers_are_counted_apart() {
    let middleware = with_headers(1, 1, None);
    assert_eq!(middleware.evaluate_at(&get(1), 0), forwarded(1, 0, SECOND));
    assert!(matches!(
        middleware.evaluate_at(&get(1), 0),
        Ok(Response::TooManyRequests { .. })
    ));
    assert_eq!(middleware.evaluate_at(&get(2), 0), forwarded(1, 0, SECOND));
}

#[test]
fn global_key_counts_all_peers_together() {
    let mut builder = GovernorConfigBuilder::default();
    builder.per_second(1).burst_size(2);
    let config = builder.key_extractor(GlobalKeyExtractor).use_headers().finish().unwrap();
    let middleware = Governor::new(&config).new_transform(());
    assert_eq!(middleware.evaluate_at(&get(1), 0), forwarded(2, 1, SECOND));
    assert_eq!(middleware.evaluate_at(&post(2), 0), forwarded(2, 0, 2 * SECOND));
    let no_peer = RequestHead::new(Method::Get, None);
    assert!(matches!(
        middleware.evaluate_at(&no_peer, 0),
        Ok(Response::TooManyRequests { retry_after_secs: 1, .. })
    ));
}

#[test]
fn middlewares_of_one_configuration_share_one_count() {
    let config = GovernorConfigBuilder::default().per_second(1).burst_size(2).finish().unwrap();
    let governor = Governor::new(&config);
    let first = governor.new_transform(1u8);
    let second = Governor::new(&config.clone()).new_transform(2u8);
    assert_eq!(*first.service(), 1);
    assert_eq!(*second.service(), 2);
    assert!(matches!(first.evaluate_at(&get(1), 0), Ok(Response::Forward { .. })));
    assert!(matches!(second.evaluate_at(&get(1), 0), Ok(Response::Forward { .. })));
    assert!(matches!(first.evaluate_at(&get(1), 0), Ok(Response::TooManyRequests { .. })));
    assert!(matches!(second.evaluate_at(&get(1), 0), Ok(Response::TooManyRequests { .. })));
}

#[test]
fn evaluate_reads_the_clock_of_the_limiter() {
    let middleware = with_headers(3600, 1, None);
    assert!(matches!(middleware.evaluate(&get(1)), Ok(Response::Forward { .. })));
    match middleware.evaluate(&get(1)) {
        Ok(Response::TooManyRequests { retry_after_secs, metadata }) => {
            assert_eq!(retry_after_secs, 3600);
            assert_eq!(metadata.remaining, Some(0));
            assert_eq!(metadata.limit, Some(1));
        }
        other => panic!("not turned away: {:?}", other),
    }
}

#[test]
fn response_follows_the_decision() {
    let quota = Quota::new(2_000_000_000, 5).unwrap();
    let admitted = Decision::Admitted { remaining: 1, limit: 5, reset_after: 8 * SECOND };
    let denied = Decision::Denied { retry_after: 1, limit: 5 };
    assert_eq!(
        respond::<NoOpMiddleware>(&admitted, &quota),
        Response::Forward { metadata: Metadata::empty() }
    );
    assert_eq!(
        respond::<StateInformationMiddleware>(&admitted, &quota),
        Response::Forward {
            metadata: Metadata {
                limit: Some(5),
                remaining: Some(1),
                reset_after: Some(8 * SECOND),
                retry_after: None,
                whitelisted: false,
            },
        }
    );
    assert!(matches!(
        respond::<NoOpMiddleware>(&denied, &quota),
        Response::TooManyRequests { retry_after_secs: 1, .. }
    ));
}

#[test]
fn without_a_list_every_method_is_counted() {
    let middleware = with_headers(3600, 3, None);
    let requests = [
        RequestHead::new(Method::Get, Some(PeerAddr::V4(1))),
        RequestHead::new(Method::Post, Some(PeerAddr::V4(1))),
        RequestHead::new(Method::Extension(String::from("PURGE")), Some(PeerAddr::V4(1))),
        RequestHead::new(Method::Put, Some(PeerAddr::V4(1))),
        RequestHead::new(Method::Delete, Some(PeerAddr::V4(1))),
    ];
    for (done, request) in requests.iter().enumerate() {
        match middleware.evaluate_at(request, 0) {
            Ok(Response::Forward { metadata }) => {
                assert!(done < 3);
                assert!(!metadata.whitelisted);
                assert_eq!(metadata.remaining, Some(2 - done as u32));
            }
            Ok(Response::TooManyRequests { retry_after_secs, metadata }) => {
                assert!(done >= 3);
                assert!(!metadata.whitelisted);
                assert_eq!(retry_after_secs, 3600);
            }
            Err(error) => panic!("no key: {:?}", error),
        }
    }
}

#[test]
fn global_key_turns_away_a_peer_that_was_never_seen() {
    let mut builder = GovernorConfigBuilder::default();
    builder.per_second(60).burst_size(4);
    let config = builder.key_extractor(GlobalKeyExtractor).finish().unwrap();
    let middleware = Governor::new(&config).new_transform(());
    for peer in 1..=4u32 {
        assert!(matches!(middleware.evaluate_at(&get(peer), 0), Ok(Response::Forward { .. })));
    }
    assert!(matches!(
        middleware.evaluate_at(&get(5), 0),
        Ok(Response::TooManyRequests { retry_after_secs: 60, .. })
    ));
}
