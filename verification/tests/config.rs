use actix_governor::gcra::Decision;
use actix_governor::key_extractor::PeerAddr;
use actix_governor::method::Method;
use actix_governor::middleware::NoOpMiddleware;
use actix_governor::middleware::StateInformationMiddleware;
use actix_governor::quota::ConfigurationError;
use actix_governor::GlobalKeyExtractor;
use actix_governor::GovernorConfig;
use actix_governor::GovernorConfigBuilder;
use actix_governor::PeerIpKeyExtractor;
use std::time::Duration;

type DefaultBuilder = GovernorConfigBuilder<PeerIpKeyExtractor, NoOpMiddleware>;

#[test]
fn default_builder_allows_eight_every_half_second() {
    let config = GovernorConfigBuilder::default().finish().unwrap();
    assert_eq!(config.quota().period(), 500_000_000);
    assert_eq!(config.quota().burst_size(), 8);
    assert_eq!(config.methods(), &None);
    assert_eq!(config.key_extractor(), &PeerIpKeyExtractor);
}

#[test]
fn const_default_is_the_default() {
    assert_eq!(DefaultBuilder::const_default(), GovernorConfigBuilder::default());
}

#[test]
fn default_config_is_the_finished_default_builder() {
    let config = GovernorConfig::default();
    assert_eq!(config.quota().period(), 500_000_000);
    assert_eq!(config.quota().burst_size(), 8);
    assert_eq!(config.methods(), &None);
}

#[test]
fn secure_config_allows_two_every_four_seconds() {
    let config: GovernorConfig<PeerIpKeyExtractor, NoOpMiddleware> = GovernorConfig::secure();
    assert_eq!(config.quota().period(), 4_000_000_000);
    assert_eq!(config.quota().burst_size(), 2);
    assert_eq!(config.methods(), &None);
    let built = GovernorConfigBuilder::default().per_second(4).burst_size(2).finish().unwrap();
    assert_eq!(built.quota().period(), config.quota().period());
    assert_eq!(built.quota().burst_size(), config.quota().burst_size());
}

#[test]
fn period_setters_agree_on_nanoseconds() {
    let mut by_duration = GovernorConfigBuilder::default();
    by_duration.period(Duration::new(2, 5));
    let mut by_nanos = GovernorConfigBuilder::default();
    by_nanos.per_nanosecond(2_000_000_005);
    assert_eq!(by_duration, by_nanos);
    assert_eq!(by_duration.finish().unwrap().quota().period(), 2_000_000_005);

    let mut by_seconds = GovernorConfigBuilder::default();
    by_seconds.per_second(3);
    assert_eq!(by_seconds.finish().unwrap().quota().period(), 3_000_000_000);

    let mut by_millis = GovernorConfigBuilder::default();
    by_millis.per_millisecond(7);
    assert_eq!(by_millis.finish().unwrap().quota().period(), 7_000_000);
}

#[test]
fn const_setters_agree_with_the_others() {
    let constant = DefaultBuilder::const_default()
        .const_per_second(60)
        .const_burst_size(10);
    let mut plain = GovernorConfigBuilder::default();
    plain.per_second(60).burst_size(10);
    assert_eq!(constant, plain);

    assert_eq!(
        DefaultBuilder::const_default().const_per_millisecond(1500),
        DefaultBuilder::const_default().const_period(Duration::from_millis(1500))
    );
    assert_eq!(
        DefaultBuilder::const_default().const_per_nanosecond(1_500_000),
        DefaultBuilder::const_default().const_period(Duration::from_micros(1500))
    );
    assert_ne!(
        DefaultBuilder::const_default().const_per_nanosecond(1),
        DefaultBuilder::const_default().const_per_nanosecond(2)
    );
}

#[test]
fn builders_differ_where_a_setting_differs() {
    let base = DefaultBuilder::const_default();
    assert_ne!(base.clone().const_burst_size(9), base);
    assert_ne!(base.clone().const_per_second(1), base);
    let mut with_methods = base.clone();
    with_methods.methods(vec![Method::Get]);
    assert_ne!(with_methods, base);
    let mut same_methods = base.clone();
    same_methods.methods(vec![Method::Get]);
    assert_eq!(with_methods, same_methods);
    let mut other_order = base.clone();
    other_order.methods(vec![Method::Get, Method::Post]);
    let mut this_order = base.clone();
    this_order.methods(vec![Method::Post, Method::Get]);
    assert_ne!(other_order, this_order);
    assert_eq!(base.clone(), base);
}

#[test]
fn finish_fails_on_zero_burst_size() {
    let mut builder = GovernorConfigBuilder::default();
    builder.burst_size(0);
    assert_eq!(builder.quota().err(), Some(ConfigurationError::ZeroBurstSize));
    assert!(builder.finish().is_none());
}

#[test]
fn finish_fails_on_zero_period() {
    for build in [
        |b: &mut DefaultBuilder| {
            b.per_second(0);
        },
        |b: &mut DefaultBuilder| {
            b.per_millisecond(0);
        },
        |b: &mut DefaultBuilder| {
            b.per_nanosecond(0);
        },
        |b: &mut DefaultBuilder| {
            b.period(Duration::ZERO);
        },
    ] {
        let mut builder = GovernorConfigBuilder::default();
        build(&mut builder);
        assert_eq!(builder.quota().err(), Some(ConfigurationError::ZeroPeriod));
        assert!(builder.finish().is_none());
    }
}

#[test]
fn finish_fails_on_a_period_beyond_64_bits_of_nanoseconds() {
    let mut builder = GovernorConfigBuilder::default();
    builder.per_second(u64::MAX).burst_size(1);
    assert_eq!(builder.quota().err(), Some(ConfigurationError::PeriodTooLong));
    assert!(builder.finish().is_none());
    let mut longest = GovernorConfigBuilder::default();
    longest.per_nanosecond(u64::MAX).burst_size(1);
    let config = longest.finish().unwrap();
    assert_eq!(config.quota().period(), u64::MAX);
    assert_eq!(config.quota().burst_size(), 1);
}

#[test]
fn finish_fails_on_a_window_beyond_64_bits_of_nanoseconds() {
    let year: u64 = 31_536_000;
    let mut builder = GovernorConfigBuilder::default();
    builder.per_second(year).burst_size(1000);
    assert_eq!(builder.quota().err(), Some(ConfigurationError::WindowTooLong));
    assert!(builder.finish().is_none());
    builder.per_second(200 * year).burst_size(4);
    assert!(builder.finish().is_none());
    builder.per_nanosecond(u64::MAX).burst_size(2);
    assert!(builder.finish().is_none());
    builder.per_second(year).burst_size(500);
    let config = builder.finish().unwrap();
    assert_eq!(config.quota().window(), 500 * year * 1_000_000_000);
}

#[test]
fn period_in_nanoseconds_of_any_number() {
    let mut by_nanos = GovernorConfigBuilder::default();
    by_nanos.period_nanos(2_000_000_005);
    let mut by_duration = GovernorConfigBuilder::default();
    by_duration.period(Duration::new(2, 5));
    assert_eq!(by_nanos, by_duration);
    assert_eq!(by_nanos.finish().unwrap().quota().period(), 2_000_000_005);
    let mut too_long = GovernorConfigBuilder::default();
    too_long.period_nanos(u64::MAX as u128 + 1).burst_size(1);
    assert_eq!(too_long.quota().err(), Some(ConfigurationError::PeriodTooLong));
    let mut zero = GovernorConfigBuilder::default();
    zero.period_nanos(0);
    assert_eq!(zero.quota().err(), Some(ConfigurationError::ZeroPeriod));
}

#[test]
fn default_builders_are_equal_where_their_settings_are() {
    let a = GovernorConfigBuilder::default();
    assert!(a == a.clone());
    let mut b = a.clone();
    b.burst_size(9);
    assert!(a != b);
    let mut c = a.clone();
    c.methods(vec![]);
    assert!(a != c);
    let mut d = a.clone();
    d.per_millisecond(500);
    assert!(a == d);
    let global = a.clone().key_extractor(GlobalKeyExtractor);
    assert!(global == global.clone());
    assert!(PeerIpKeyExtractor == PeerIpKeyExtractor);
    assert!(GlobalKeyExtractor == GlobalKeyExtractor);
}

#[test]
fn finish_leaves_the_builder_as_it_was() {
    let mut builder = GovernorConfigBuilder::default();
    builder.per_second(2).burst_size(5).methods(vec![Method::Put]);
    let before = builder.clone();
    let config = builder.finish().unwrap();
    assert_eq!(builder, before);
    assert_eq!(config.methods(), &Some(vec![Method::Put]));
}

#[test]
fn key_extractor_and_headers_keep_the_other_settings() {
    let mut builder = GovernorConfigBuilder::default();
    builder.per_second(2).burst_size(5).methods(vec![Method::Get, Method::Head]);
    let global: GovernorConfigBuilder<GlobalKeyExtractor, StateInformationMiddleware> =
        builder.key_extractor(GlobalKeyExtractor).use_headers();
    let config = global.clone().finish().unwrap();
    assert_eq!(config.quota().period(), 2_000_000_000);
    assert_eq!(config.quota().burst_size(), 5);
    assert_eq!(config.methods(), &Some(vec![Method::Get, Method::Head]));
    assert_eq!(config.key_extractor(), &GlobalKeyExtractor);
}

#[test]
fn clones_of_a_configuration_share_one_count() {
    let config = GovernorConfigBuilder::default().per_second(1).burst_size(2).finish().unwrap();
    let clone = config.clone();
    let key = PeerAddr::V4(0x7f00_0001);
    assert!(matches!(config.limiter().check_key_at(&key, 0), Decision::Admitted { .. }));
    assert!(matches!(clone.limiter().check_key_at(&key, 0), Decision::Admitted { .. }));
    assert!(matches!(config.limiter().check_key_at(&key, 0), Decision::Denied { .. }));
    assert!(matches!(clone.limiter().check_key_at(&key, 0), Decision::Denied { .. }));
    assert!(matches!(config.shared_limiter().check_key_at(&key, 0), Decision::Denied { .. }));
}

#[test]
fn configurations_finished_apart_count_apart() {
    let mut builder = GovernorConfigBuilder::default();
    builder.per_second(1).burst_size(1);
    let first = builder.finish().unwrap();
    let second = builder.finish().unwrap();
    let key = PeerAddr::V6(1);
    assert!(matches!(first.limiter().check_key_at(&key, 0), Decision::Admitted { .. }));
    assert!(matches!(first.limiter().check_key_at(&key, 0), Decision::Denied { .. }));
    assert!(matches!(second.limiter().check_key_at(&key, 0), Decision::Admitted { .. }));
}
