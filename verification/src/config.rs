//! The configuration of a governor, and the builder that validates it.

use crate::key_extractor::KeyExtractor;
use crate::key_extractor::PeerIpKeyExtractor;
use crate::limiter::RateLimiter;
use crate::method::allow_list;
use crate::method::clone_methods;
use crate::method::same_methods;
use crate::method::Method;
use crate::method::MethodToken;
use crate::middleware::NoOpMiddleware;
use crate::middleware::RateLimitingMiddleware;
use crate::middleware::StateInformationMiddleware;
use crate::quota::ConfigurationError;
use crate::quota::Quota;
use crate::time::duration_nanos;
use std::marker::PhantomData;
use std::sync::Arc;
use std::time::Duration;
use vstd::prelude::*;
use vstd::std_specs::cmp::PartialEqSpec;
use vstd::std_specs::cmp::PartialEqSpecImpl;

verus! {

/// The period of the default configuration: half a second, in nanoseconds.
pub const DEFAULT_PERIOD: u128 = 500_000_000;

/// The burst size of the default configuration.
pub const DEFAULT_BURST_SIZE: u32 = 8;

/// What a builder holds, as contracts see it.
pub struct Settings<K> {
    /// The replenishment period in nanoseconds.
    pub period: u128,
    pub burst_size: u32,
    /// The methods that the governor applies to; `None` stands for all methods.
    pub methods: Option<Seq<MethodToken>>,
    pub key_extractor: K,
}

/// Collects the settings of a governor. Nothing is validated before `finish`.
#[derive(Debug)]
pub struct GovernorConfigBuilder<K: KeyExtractor, M: RateLimitingMiddleware> {
    period: u128,
    burst_size: u32,
    methods: Option<Vec<Method>>,
    key_extractor: K,
    middleware: PhantomData<M>,
}

impl<K: KeyExtractor, M: RateLimitingMiddleware> View for GovernorConfigBuilder<K, M> {
    type V = Settings<K>;

    closed spec fn view(&self) -> Settings<K> {
        Settings {
            period: self.period,
            burst_size: self.burst_size,
            methods: allow_list(self.methods),
            key_extractor: self.key_extractor,
        }
    }
}

impl<M: RateLimitingMiddleware> GovernorConfigBuilder<PeerIpKeyExtractor, M> {
    /// The default settings: bursts of up to eight requests, one unit
    /// replenished every half second, for all methods, keyed by peer address.
    pub fn const_default() -> (builder: Self)
        ensures
            builder@ == (Settings {
                period: DEFAULT_PERIOD,
                burst_size: DEFAULT_BURST_SIZE,
                methods: None,
                key_extractor: PeerIpKeyExtractor,
            }),
    {
        GovernorConfigBuilder {
            period: DEFAULT_PERIOD,
            burst_size: DEFAULT_BURST_SIZE,
            methods: None,
            key_extractor: PeerIpKeyExtractor,
            middleware: PhantomData,
        }
    }

    /// Sets the interval after which one unit of the quota is replenished.
    pub fn const_period(self, duration: Duration) -> (builder: Self)
        ensures
            builder@ == (Settings { period: duration_nanos(duration), ..self@ }),
    {
        let mut builder = self;
        builder.period_nanos(duration.as_nanos());
        builder
    }

    /// Sets the replenishment interval in seconds.
    pub fn const_per_second(self, seconds: u64) -> (builder: Self)
        ensures
            builder@ == (Settings { period: (seconds * 1_000_000_000) as u128, ..self@ }),
    {
        let mut builder = self;
        builder.period = seconds_to_nanos(seconds);
        builder
    }

    /// Sets the replenishment interval in milliseconds.
    pub fn const_per_millisecond(self, milliseconds: u64) -> (builder: Self)
        ensures
            builder@ == (Settings { period: (milliseconds * 1_000_000) as u128, ..self@ }),
    {
        let mut builder = self;
        builder.period = milliseconds_to_nanos(milliseconds);
        builder
    }

    /// Sets the replenishment interval in nanoseconds.
    pub fn const_per_nanosecond(self, nanoseconds: u64) -> (builder: Self)
        ensures
            builder@ == (Settings { period: nanoseconds as u128, ..self@ }),
    {
        let mut builder = self;
        builder.period = nanoseconds as u128;
        builder
    }

    /// Sets how many requests a key may send at once before it has to wait
    /// for units to be replenished.
    pub fn const_burst_size(self, burst_size: u32) -> (builder: Self)
        ensures
            builder@ == (Settings { burst_size, ..self@ }),
    {
        let mut builder = self;
        builder.burst_size = burst_size;
        builder
    }
}

impl<K: KeyExtractor, M: RateLimitingMiddleware> GovernorConfigBuilder<K, M> {
    /// Sets the interval after which one unit of the quota is replenished,
    /// in nanoseconds of any number.
    pub fn period_nanos(&mut self, nanoseconds: u128) -> (this: &mut Self)
        ensures
            this@ == (Settings { period: nanoseconds, ..old(self)@ }),
            final(self)@ == final(this)@,
    {
        self.period = nanoseconds;
        self
    }

    /// Sets the interval after which one unit of the quota is replenished.
    pub fn period(&mut self, duration: Duration) -> (this: &mut Self)
        ensures
            this@ == (Settings { period: duration_nanos(duration), ..old(self)@ }),
            final(self)@ == final(this)@,
    {
        self.period_nanos(duration.as_nanos())
    }

    /// Sets the replenishment interval in seconds.
    pub fn per_second(&mut self, seconds: u64) -> (this: &mut Self)
        ensures
            this@ == (Settings { period: (seconds * 1_000_000_000) as u128, ..old(self)@ }),
            final(self)@ == final(this)@,
    {
        self.period = seconds_to_nanos(seconds);
        self
    }

    /// Sets the replenishment interval in milliseconds.
    pub fn per_millisecond(&mut self, milliseconds: u64) -> (this: &mut Self)
        ensures
            this@ == (Settings { period: (milliseconds * 1_000_000) as u128, ..old(self)@ }),
            final(self)@ == final(this)@,
    {
        self.period = milliseconds_to_nanos(milliseconds);
        self
    }

    /// Sets the replenishment interval in nanoseconds.
    pub fn per_nanosecond(&mut self, nanoseconds: u64) -> (this: &mut Self)
        ensures
            this@ == (Settings { period: nanoseconds as u128, ..old(self)@ }),
            final(self)@ == final(this)@,
    {
        self.period = nanoseconds as u128;
        self
    }

    /// Sets how many requests a key may send at once before it has to wait
    /// for units to be replenished.
    pub fn burst_size(&mut self, burst_size: u32) -> (this: &mut Self)
        ensures
            this@ == (Settings { burst_size, ..old(self)@ }),
            final(self)@ == final(this)@,
    {
        self.burst_size = burst_size;
        self
    }

    /// Sets the methods that the governor applies to. Without this call it
    /// applies to all methods.
    pub fn methods(&mut self, methods: Vec<Method>) -> (this: &mut Self)
        ensures
            this@ == (Settings { methods: allow_list(Some(methods)), ..old(self)@ }),
            final(self)@ == final(this)@,
    {
        self.methods = Some(methods);
        self
    }

    /// A builder with the same quota and methods that keys requests with
    /// `key_extractor`.
    pub fn key_extractor<K2: KeyExtractor>(&mut self, key_extractor: K2) -> (builder:
        GovernorConfigBuilder<K2, M>)
        ensures
            final(self)@ == old(self)@,
            builder@ == (Settings {
                period: old(self)@.period,
                burst_size: old(self)@.burst_size,
                methods: old(self)@.methods,
                key_extractor,
            }),
    {
        GovernorConfigBuilder {
            period: self.period,
            burst_size: self.burst_size,
            methods: clone_methods(&self.methods),
            key_extractor,
            middleware: PhantomData,
        }
    }

    /// A builder with the same settings whose governor reports the state of the
    /// bucket: the limit, the units left, and whether the request passed
    /// because of its method.
    pub fn use_headers(&mut self) -> (builder: GovernorConfigBuilder<
        K,
        StateInformationMiddleware,
    >)
        ensures
            final(self)@ == old(self)@,
            builder@.period == old(self)@.period,
            builder@.burst_size == old(self)@.burst_size,
            builder@.methods == old(self)@.methods,
            cloned(old(self)@.key_extractor, builder@.key_extractor),
    {
        GovernorConfigBuilder {
            period: self.period,
            burst_size: self.burst_size,
            methods: clone_methods(&self.methods),
            key_extractor: self.key_extractor.clone(),
            middleware: PhantomData,
        }
    }

    /// The quota of these settings, or what is wrong with them.
    pub fn quota(&self) -> (r: Result<Quota, ConfigurationError>)
        ensures
            match r {
                Ok(q) => q.wf() && Quota::validate(self@.period, self@.burst_size) == Ok::<
                    (u64, u32),
                    ConfigurationError,
                >((q.spec_period(), q.spec_burst_size())),
                Err(e) => Quota::validate(self@.period, self@.burst_size) == Err::<
                    (u64, u32),
                    ConfigurationError,
                >(e),
            },
    {
        Quota::new(self.period, self.burst_size)
    }

    /// Validates the settings and makes the configuration, with a limiter
    /// and an empty store of its own. Returns `None` where the burst size or
    /// the period is zero, or the window, burst size times period, is longer
    /// than the limiter can count: more than 584 years.
    ///
    /// Every call makes a new store: two configurations finished from one
    /// builder count their quotas apart. To share the count, clone the
    /// configuration.
    pub fn finish(&mut self) -> (config: Option<GovernorConfig<K, M>>)
        ensures
            final(self)@ == old(self)@,
            match config {
                Some(c) => {
                    &&& c.spec_quota().wf()
                    &&& Quota::validate(old(self)@.period, old(self)@.burst_size) == Ok::<
                        (u64, u32),
                        ConfigurationError,
                    >((c.spec_quota().spec_period(), c.spec_quota().spec_burst_size()))
                    &&& c.spec_methods() == old(self)@.methods
                    &&& cloned(old(self)@.key_extractor, c.spec_key_extractor())
                },
                None => Quota::validate(old(self)@.period, old(self)@.burst_size) is Err,
            },
    {
        match Quota::new(self.period, self.burst_size) {
            Ok(quota) => Some(
                GovernorConfig {
                    key_extractor: self.key_extractor.clone(),
                    limiter: Arc::new(RateLimiter::keyed(quota)),
                    methods: clone_methods(&self.methods),
                    middleware: PhantomData,
                },
            ),
            Err(_) => None,
        }
    }
}

impl<K: KeyExtractor, M: RateLimitingMiddleware> Clone for GovernorConfigBuilder<K, M> {
    fn clone(&self) -> (copy: Self)
        ensures
            copy@.period == self@.period,
            copy@.burst_size == self@.burst_size,
            copy@.methods == self@.methods,
            cloned(self@.key_extractor, copy@.key_extractor),
    {
        GovernorConfigBuilder {
            period: self.period,
            burst_size: self.burst_size,
            methods: clone_methods(&self.methods),
            key_extractor: self.key_extractor.clone(),
            middleware: PhantomData,
        }
    }
}

impl<K: KeyExtractor + PartialEq, M: RateLimitingMiddleware> PartialEq for GovernorConfigBuilder<
    K,
    M,
> {
    /// Two builders are equal where their periods, burst sizes, lists of
    /// methods and key extractors are.
    fn eq(&self, other: &Self) -> (equal: bool) {
        self.period == other.period && self.burst_size == other.burst_size && same_methods(
            &self.methods,
            &other.methods,
        ) && self.key_extractor == other.key_extractor
    }
}

impl<K: KeyExtractor + PartialEq, M: RateLimitingMiddleware> PartialEqSpecImpl for GovernorConfigBuilder<
    K,
    M,
> {
    open spec fn obeys_eq_spec() -> bool {
        K::obeys_eq_spec()
    }

    open spec fn eq_spec(&self, other: &Self) -> bool {
        &&& self@.period == other@.period
        &&& self@.burst_size == other@.burst_size
        &&& self@.methods == other@.methods
        &&& self@.key_extractor.eq_spec(&other@.key_extractor)
    }
}

impl<K: KeyExtractor + Eq, M: RateLimitingMiddleware> Eq for GovernorConfigBuilder<K, M> {

}

impl Default for GovernorConfigBuilder<PeerIpKeyExtractor, NoOpMiddleware> {
    /// The default settings, which suit most services: bursts of up to eight
    /// requests, one unit replenished every half second, keyed by peer
    /// address.
    fn default() -> (builder: Self)
        ensures
            builder@ == (Settings {
                period: DEFAULT_PERIOD,
                burst_size: DEFAULT_BURST_SIZE,
                methods: None,
                key_extractor: PeerIpKeyExtractor,
            }),
    {
        Self::const_default()
    }
}

/// The nanoseconds of a number of seconds.
fn seconds_to_nanos(seconds: u64) -> (nanos: u128)
    ensures
        nanos == seconds * 1_000_000_000,
{
    (seconds as u128) * 1_000_000_000
}

/// The nanoseconds of a number of milliseconds.
fn milliseconds_to_nanos(milliseconds: u64) -> (nanos: u128)
    ensures
        nanos == milliseconds * 1_000_000,
{
    (milliseconds as u128) * 1_000_000
}

/// `Arc::clone`: another handle on the same allocation, so what it points to
/// is what `handle` points to.
#[verifier::external_body]
pub(crate) fn share<T>(handle: &Arc<T>) -> (shared: Arc<T>)
    ensures
        shared == *handle,
{
    Arc::clone(handle)
}

/// The validated configuration of a governor: a key extractor, the methods that
/// the governor applies to, and a handle on the limiter. Clones share the limiter
/// and its store.
#[derive(Debug)]
#[verifier::reject_recursive_types(K)]
pub struct GovernorConfig<K: KeyExtractor, M: RateLimitingMiddleware> {
    key_extractor: K,
    limiter: Arc<RateLimiter<K::Key>>,
    methods: Option<Vec<Method>>,
    middleware: PhantomData<M>,
}

impl<K: KeyExtractor, M: RateLimitingMiddleware> GovernorConfig<K, M> {
    /// The quota that every key is held to.
    pub closed spec fn spec_quota(&self) -> Quota {
        self.limiter.spec_quota()
    }

    /// The methods that the governor applies to; `None` stands for all.
    pub closed spec fn spec_methods(&self) -> Option<Seq<MethodToken>> {
        allow_list(self.methods)
    }

    pub closed spec fn spec_key_extractor(&self) -> K {
        self.key_extractor
    }

    /// The limiter that this configuration and its clones share.
    pub closed spec fn spec_limiter(&self) -> RateLimiter<K::Key> {
        *self.limiter
    }

    #[verifier::when_used_as_spec(spec_quota)]
    pub fn quota(&self) -> (quota: Quota)
        ensures
            quota == self.spec_quota(),
            quota.wf(),
    {
        self.limiter.quota()
    }

    /// The methods that the governor applies to; `None` stands for all.
    pub fn methods(&self) -> (methods: &Option<Vec<Method>>)
        ensures
            allow_list(*methods) == self.spec_methods(),
    {
        &self.methods
    }

    pub fn key_extractor(&self) -> (key_extractor: &K)
        ensures
            *key_extractor == self.spec_key_extractor(),
    {
        &self.key_extractor
    }

    /// The limiter that this configuration and its clones share.
    pub fn limiter(&self) -> (limiter: &RateLimiter<K::Key>)
        ensures
            *limiter == self.spec_limiter(),
            limiter.spec_quota() == self.spec_quota(),
    {
        &self.limiter
    }

    /// Another handle on the limiter of this configuration.
    pub fn shared_limiter(&self) -> (limiter: Arc<RateLimiter<K::Key>>)
        ensures
            *limiter == self.spec_limiter(),
            limiter.spec_quota() == self.spec_quota(),
    {
        share(&self.limiter)
    }
}

impl<M: RateLimitingMiddleware> GovernorConfig<PeerIpKeyExtractor, M> {
    /// A configuration for services that guard secrets: bursts of up to two
    /// requests, one unit replenished every four seconds, keyed by peer
    /// address. A wrong password can be typed again at once, but not guessed
    /// at speed.
    pub fn secure() -> (config: Self)
        ensures
            config.spec_quota().spec_period() == 4_000_000_000,
            config.spec_quota().spec_burst_size() == 2,
            config.spec_methods() is None,
            config.spec_key_extractor() == PeerIpKeyExtractor,
    {
        let mut builder: GovernorConfigBuilder<PeerIpKeyExtractor, M> = GovernorConfigBuilder {
            period: 4_000_000_000,
            burst_size: 2,
            methods: None,
            key_extractor: PeerIpKeyExtractor,
            middleware: PhantomData,
        };
        builder.finish().unwrap()
    }
}

impl<K: KeyExtractor, M: RateLimitingMiddleware> Clone for GovernorConfig<K, M> {
    /// A configuration that shares the limiter, and so the count of every
    /// key, with this one.
    fn clone(&self) -> (copy: Self)
        ensures
            copy.spec_limiter() == self.spec_limiter(),
            copy.spec_quota() == self.spec_quota(),
            copy.spec_methods() == self.spec_methods(),
            cloned(self.spec_key_extractor(), copy.spec_key_extractor()),
    {
        GovernorConfig {
            key_extractor: self.key_extractor.clone(),
            limiter: share(&self.limiter),
            methods: clone_methods(&self.methods),
            middleware: PhantomData,
        }
    }
}

impl Default for GovernorConfig<PeerIpKeyExtractor, NoOpMiddleware> {
    /// The default configuration, which suits most services: bursts of up to
    /// eight requests, one unit replenished every half second, keyed by peer
    /// address.
    fn default() -> (config: Self)
        ensures
            config.spec_quota().spec_period() == DEFAULT_PERIOD,
            config.spec_quota().spec_burst_size() == DEFAULT_BURST_SIZE,
            config.spec_methods() is None,
            config.spec_key_extractor() == PeerIpKeyExtractor,
    {
        let mut builder: GovernorConfigBuilder<PeerIpKeyExtractor, NoOpMiddleware> =
            GovernorConfigBuilder::default();
        builder.finish().unwrap()
    }
}

} // verus!
