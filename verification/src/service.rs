//! The governor in front of a service: from a request to forwarding it or turning it away.

use crate::config::share;
use crate::config::GovernorConfig;
use crate::gcra::decision_for;
use crate::gcra::lemma_decision_bounds;
use crate::gcra::Decision;
use crate::key_extractor::ExtractionError;
use crate::key_extractor::KeyExtractor;
use crate::key_extractor::RequestHead;
use crate::limiter::RateLimiter;
use crate::method::allow_list;
use crate::method::applies_to;
use crate::method::clone_methods;
use crate::method::method_applies;
use crate::method::Method;
use crate::method::MethodToken;
use crate::middleware::seconds_covering;
use crate::middleware::lemma_reported_remaining;
use crate::middleware::whole_seconds;
use crate::middleware::Metadata;
use crate::middleware::RateLimitingMiddleware;
use crate::middleware::StateInformationMiddleware;
use crate::quota::Quota;
use std::marker::PhantomData;
use std::sync::Arc;
use vstd::prelude::*;

verus! {

/// What the caller does with a request.
#[derive(Clone, Copy, Debug, PartialEq, Eq, Structural)]
pub enum Response {
    /// Hand the request to the service behind the governor, and report
    /// `metadata` with its answer.
    Forward { metadata: Metadata },
    /// Turn the request away as one too many. `retry_after_secs` is the
    /// whole seconds, rounded up, after which it may be tried again.
    TooManyRequests { retry_after_secs: u64, metadata: Metadata },
}

impl Response {
    /// What is reported with the response.
    pub open spec fn spec_metadata(&self) -> Metadata {
        match self {
            Response::Forward { metadata } => *metadata,
            Response::TooManyRequests { metadata, .. } => *metadata,
        }
    }

    /// What is reported with the response.
    #[verifier::when_used_as_spec(spec_metadata)]
    pub fn metadata(&self) -> (metadata: Metadata)
        ensures
            metadata == self.spec_metadata(),
    {
        match self {
            Response::Forward { metadata } => *metadata,
            Response::TooManyRequests { metadata, .. } => *metadata,
        }
    }
}

/// What a governor does with a request before any quota is touched.
pub enum Route<Key> {
    /// The governor does not apply to the method of the request.
    Bypass,
    /// The request is counted under this key.
    Check(Key),
    /// The request has no key.
    Fail(ExtractionError),
}

/// The response to a decision, with `metadata` to report: an admitted
/// request is forwarded, a denied one turned away.
pub open spec fn response_to(decision: Decision, metadata: Metadata) -> Response {
    match decision {
        Decision::Admitted { .. } => Response::Forward { metadata },
        Decision::Denied { retry_after, .. } => Response::TooManyRequests {
            retry_after_secs: seconds_covering(retry_after) as u64,
            metadata,
        },
    }
}

/// The response to a checked request, with what the annotator `M` reports
/// of the decision.
pub fn respond<M: RateLimitingMiddleware>(decision: &Decision, quota: &Quota) -> (response: Response)
    ensures
        call_ensures(M::annotate, (decision, quota), response.spec_metadata()),
        response == response_to(*decision, response.spec_metadata()),
{
    let metadata = M::annotate(decision, quota);
    match decision {
        Decision::Admitted { .. } => Response::Forward { metadata },
        Decision::Denied { retry_after, .. } => Response::TooManyRequests {
            retry_after_secs: whole_seconds(*retry_after),
            metadata,
        },
    }
}

/// Makes the governors of one configuration. All of them share its limiter.
#[verifier::reject_recursive_types(K)]
pub struct Governor<K: KeyExtractor, M: RateLimitingMiddleware> {
    key_extractor: K,
    limiter: Arc<RateLimiter<K::Key>>,
    methods: Option<Vec<Method>>,
    middleware: PhantomData<M>,
}

impl<K: KeyExtractor, M: RateLimitingMiddleware> Governor<K, M> {
    pub closed spec fn spec_key_extractor(&self) -> K {
        self.key_extractor
    }

    /// The limiter that the governors of this factory share.
    pub closed spec fn spec_limiter(&self) -> RateLimiter<K::Key> {
        *self.limiter
    }

    /// The methods that the governors apply to; `None` stands for all.
    pub closed spec fn spec_methods(&self) -> Option<Seq<MethodToken>> {
        allow_list(self.methods)
    }

    /// A factory for the governors of `config`, on the limiter of `config`.
    pub fn new(config: &GovernorConfig<K, M>) -> (governor: Self)
        ensures
            governor.spec_limiter() == config.spec_limiter(),
            governor.spec_methods() == config.spec_methods(),
            cloned(config.spec_key_extractor(), governor.spec_key_extractor()),
    {
        Governor {
            key_extractor: config.key_extractor().clone(),
            limiter: config.shared_limiter(),
            methods: clone_methods(config.methods()),
            middleware: PhantomData,
        }
    }

    /// A governor in front of `service`, on the limiter of this factory.
    pub fn new_transform<S>(&self, service: S) -> (middleware: GovernorMiddleware<S, K, M>)
        ensures
            middleware.spec_service() == service,
            middleware.spec_limiter() == self.spec_limiter(),
            middleware.spec_methods() == self.spec_methods(),
            cloned(self.spec_key_extractor(), middleware.spec_key_extractor()),
    {
        GovernorMiddleware {
            service,
            key_extractor: self.key_extractor.clone(),
            limiter: share(&self.limiter),
            methods: clone_methods(&self.methods),
            middleware: PhantomData,
        }
    }
}

/// A governor in front of a service.
#[verifier::reject_recursive_types(K)]
pub struct GovernorMiddleware<S, K: KeyExtractor, M: RateLimitingMiddleware> {
    service: S,
    key_extractor: K,
    limiter: Arc<RateLimiter<K::Key>>,
    methods: Option<Vec<Method>>,
    middleware: PhantomData<M>,
}

impl<S, K: KeyExtractor, M: RateLimitingMiddleware> GovernorMiddleware<S, K, M> {
    pub closed spec fn spec_service(&self) -> S {
        self.service
    }

    pub closed spec fn spec_key_extractor(&self) -> K {
        self.key_extractor
    }

    /// The limiter that this governor counts on.
    pub closed spec fn spec_limiter(&self) -> RateLimiter<K::Key> {
        *self.limiter
    }

    /// The quota that every key is held to.
    pub open spec fn spec_quota(&self) -> Quota {
        self.spec_limiter().spec_quota()
    }

    /// The methods that the governor applies to; `None` stands for all.
    pub closed spec fn spec_methods(&self) -> Option<Seq<MethodToken>> {
        allow_list(self.methods)
    }

    /// The service behind the governor.
    pub fn service(&self) -> (service: &S)
        ensures
            *service == self.spec_service(),
    {
        &self.service
    }

    /// The limiter that this governor counts on.
    pub fn limiter(&self) -> (limiter: &RateLimiter<K::Key>)
        ensures
            *limiter == self.spec_limiter(),
    {
        &self.limiter
    }

    /// The quota that every key is held to.
    #[verifier::when_used_as_spec(spec_quota)]
    pub fn quota(&self) -> (quota: Quota)
        ensures
            quota == self.spec_quota(),
            quota.wf(),
    {
        self.limiter.quota()
    }

    /// Where `request` goes, before any quota is touched: past the
    /// governor where it does not apply to the method, and then the key
    /// extractor is not asked; else to the check of the key that the key
    /// extractor gives, or to failure with its error.
    pub fn route(&self, request: &RequestHead) -> (route: Route<K::Key>)
        ensures
            match route {
                Route::Bypass => !applies_to(self.spec_methods(), request.method@),
                Route::Check(key) => {
                    &&& applies_to(self.spec_methods(), request.method@)
                    &&& call_ensures(
                        K::extract,
                        (&self.spec_key_extractor(), request),
                        Ok::<K::Key, ExtractionError>(key),
                    )
                },
                Route::Fail(error) => {
                    &&& applies_to(self.spec_methods(), request.method@)
                    &&& call_ensures(
                        K::extract,
                        (&self.spec_key_extractor(), request),
                        Err::<K::Key, ExtractionError>(error),
                    )
                },
            },
    {
        if !method_applies(&self.methods, &request.method) {
            Route::Bypass
        } else {
            match self.key_extractor.extract(request) {
                Ok(key) => Route::Check(key),
                Err(error) => Route::Fail(error),
            }
        }
    }

    /// What the check of a request at `now` may come to: the response to
    /// the decision that the bucket arithmetic gives for some arrival time,
    /// with what the annotator reports of that decision.
    pub open spec fn checked(&self, now: u64, response: Response) -> bool {
        exists|state: Option<u64>|
            {
                &&& call_ensures(
                    M::annotate,
                    (&#[trigger] decision_for(state, now, self.spec_quota()), &self.spec_quota()),
                    response.spec_metadata(),
                )
                &&& response == response_to(
                    decision_for(state, now, self.spec_quota()),
                    response.spec_metadata(),
                )
            }
    }

    /// What passing `request` through the governor at `now` may come to.
    ///
    /// A request whose method the governor does not apply to is
    /// forwarded, with what the annotator reports of a bypass. A request
    /// without a key fails with the error of the key extractor. Any other
    /// request is checked under its key.
    pub open spec fn evaluated(
        &self,
        request: RequestHead,
        now: u64,
        r: Result<Response, ExtractionError>,
    ) -> bool {
        if !applies_to(self.spec_methods(), request.method@) {
            r matches Ok(Response::Forward { metadata }) && call_ensures(
                M::annotate_bypass,
                (),
                metadata,
            )
        } else {
            match r {
                Ok(response) => {
                    &&& exists|key: K::Key| #[trigger]
                        call_ensures(
                            K::extract,
                            (&self.spec_key_extractor(), &request),
                            Ok::<K::Key, ExtractionError>(key),
                        )
                    &&& self.checked(now, response)
                },
                Err(error) => call_ensures(
                    K::extract,
                    (&self.spec_key_extractor(), &request),
                    Err::<K::Key, ExtractionError>(error),
                ),
            }
        }
    }

    /// Checks a request that is counted under `key`, and responds.
    fn check(&self, key: &K::Key, now: u64) -> (response: Response)
        ensures
            self.spec_quota().wf(),
            self.checked(now, response),
    {
        let quota = self.quota();
        let decision = self.limiter.check_key_at(key, now);
        respond::<M>(&decision, &quota)
    }

    /// Passes one request through the governor at the instant `now`.
    /// Where the request is checked and admitted, this takes one unit of
    /// its key; in every other case the limiter is not asked.
    pub fn evaluate_at(&self, request: &RequestHead, now: u64) -> (r: Result<
        Response,
        ExtractionError,
    >)
        ensures
            self.evaluated(*request, now, r),
    {
        match self.route(request) {
            Route::Bypass => Ok(Response::Forward { metadata: M::annotate_bypass() }),
            Route::Fail(error) => Err(error),
            Route::Check(key) => Ok(self.check(&key, now)),
        }
    }

    /// Passes one request through the governor at the instant that the
    /// clock of the limiter shows. The clock is read only for a request
    /// that is checked.
    pub fn evaluate(&self, request: &RequestHead) -> (r: Result<Response, ExtractionError>)
        ensures
            exists|now: u64| #[trigger] self.evaluated(*request, now, r),
    {
        match self.route(request) {
            Route::Bypass => {
                let r = Ok(Response::Forward { metadata: M::annotate_bypass() });
                assert(self.evaluated(*request, 0, r));
                r
            },
            Route::Fail(error) => {
                let r = Err(error);
                assert(self.evaluated(*request, 0, r));
                r
            },
            Route::Check(key) => {
                let now = self.limiter.now();
                let r = Ok(self.check(&key, now));
                assert(self.evaluated(*request, now, r));
                r
            },
        }
    }
}

impl<S, K: KeyExtractor> GovernorMiddleware<S, K, StateInformationMiddleware> {
    /// With the state-information annotator, the response to a checked
    /// request reports the burst size as its limit. A forwarded request
    /// reports as the units left a number from zero to one less than the
    /// burst size; a request that is turned away reports no units left, and
    /// at least one second to wait.
    pub proof fn lemma_reported_state(&self, now: u64, response: Response)
        requires
            self.spec_quota().wf(),
            self.checked(now, response),
        ensures
            response.spec_metadata().limit == Some(self.spec_quota().spec_burst_size()),
            match response {
                Response::Forward { metadata } => {
                    &&& metadata.remaining matches Some(left) && 0 <= left
                        <= self.spec_quota().spec_burst_size() - 1
                    &&& metadata.reset_after is Some
                    &&& !metadata.whitelisted
                },
                Response::TooManyRequests { retry_after_secs, metadata } => {
                    &&& metadata.remaining == Some(0u32)
                    &&& metadata.retry_after matches Some(wait) && wait > 0
                        && retry_after_secs == seconds_covering(wait)
                    &&& retry_after_secs >= 1
                },
            },
    {
        let quota = self.spec_quota();
        let state = choose|state: Option<u64>|
            {
                &&& call_ensures(
                    StateInformationMiddleware::annotate,
                    (&#[trigger] decision_for(state, now, quota), &quota),
                    response.spec_metadata(),
                )
                &&& response == response_to(decision_for(state, now, quota), response.spec_metadata())
            };
        lemma_reported_remaining(state, now, quota);
        lemma_decision_bounds(state, now, quota);
    }
}

} // verus!
