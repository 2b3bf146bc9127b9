//! The keyed rate limiter: one quota, one bucket per key.

use crate::clock::default_clock;
use crate::clock::nanos_between;
use crate::clock::read_clock;
use crate::gcra::conforms;
use crate::gcra::count_at;
use crate::gcra::decision_for;
use crate::gcra::lemma_decision_bounds;
use crate::gcra::Decision;
use crate::quota::Quota;
use crate::store::KeyedStateStore;
use governor::clock::QuantaClock;
use governor::clock::QuantaInstant;
use std::hash::Hash;
use vstd::prelude::*;

verus! {

/// A quota, the store of the buckets it is applied to, and the clock that the
/// instants of the store are read from. Instants count from `start`.
#[derive(Debug)]
#[verifier::reject_recursive_types(K)]
pub struct RateLimiter<K: Hash + Eq + Clone> {
    quota: Quota,
    store: KeyedStateStore<K>,
    clock: QuantaClock,
    start: QuantaInstant,
}

impl<K: Hash + Eq + Clone> RateLimiter<K> {
    /// The quota that every key is held to.
    pub closed spec fn spec_quota(&self) -> Quota {
        self.quota
    }

    /// A limiter with an empty store of its own, whose instants count from now.
    pub fn keyed(quota: Quota) -> (limiter: Self)
        ensures
            limiter.spec_quota() == quota,
    {
        let clock = default_clock();
        let start = read_clock(&clock);
        RateLimiter { quota, store: KeyedStateStore::new(), clock, start }
    }

    #[verifier::when_used_as_spec(spec_quota)]
    pub fn quota(&self) -> (quota: Quota)
        ensures
            quota == self.spec_quota(),
            quota.wf(),
    {
        proof {
            use_type_invariant(&self.quota);
        }
        self.quota
    }

    /// The nanoseconds since the limiter was made, on its monotonic clock.
    pub fn now(&self) -> (now: u64) {
        let reading = read_clock(&self.clock);
        nanos_between(&self.start, &reading)
    }

    /// Checks `key` at the instant `now`, and takes one unit where the check
    /// is admitted. The decision is the one that the bucket arithmetic gives
    /// for the arrival time that the store held for `key`, or for no arrival
    /// time where the key was not in the store.
    pub fn check_key_at(&self, key: &K, now: u64) -> (d: Decision)
        ensures
            self.spec_quota().wf(),
            exists|state: Option<u64>| d == #[trigger] decision_for(state, now, self.spec_quota()),
            match d {
                Decision::Admitted { remaining, limit, reset_after } => {
                    &&& limit == self.spec_quota().spec_burst_size()
                    &&& remaining < limit
                    &&& reset_after <= self.spec_quota().spec_window()
                },
                Decision::Denied { retry_after, limit } => {
                    &&& limit == self.spec_quota().spec_burst_size()
                    &&& 0 < retry_after
                },
            },
    {
        let quota = self.quota();
        let measured = self.store.measure_and_replace(key, now, &quota);
        proof {
            let state = choose|state: Option<u64>|
                match measured {
                    Ok(d) => conforms(state, now, quota) && d == #[trigger] decision_for(
                        state,
                        now,
                        quota,
                    ),
                    Err(d) => !conforms(state, now, quota) && d == #[trigger] decision_for(
                        state,
                        now,
                        quota,
                    ),
                };
            lemma_decision_bounds(state, now, quota);
        }
        match measured {
            Ok(d) => d,
            Err(d) => d,
        }
    }

    /// Checks `key` at the instant that the clock shows.
    pub fn check_key(&self, key: &K) -> (d: Decision)
        ensures
            self.spec_quota().wf(),
            exists|state: Option<u64>, now: u64|
                d == #[trigger] decision_for(state, now, self.spec_quota()),
    {
        let now = self.now();
        self.check_key_at(key, now)
    }

    /// Drops the buckets that are full at `now`: those whose arrival time is
    /// the instant at which `now` is counted, or earlier. Such a bucket
    /// decides as a key that was never seen
    /// ([`lemma_idle_is_fresh`](crate::gcra::lemma_idle_is_fresh)), so no
    /// decision at `now` or later changes. To keep full buckets for a while,
    /// pass an earlier instant.
    pub fn retain_recent_at(&self, now: u64) {
        let quota = self.quota();
        self.store.retain_recent(count_at(now, &quota))
    }

    /// Drops the buckets that are full at the instant that the clock shows.
    pub fn retain_recent(&self) {
        let now = self.now();
        self.retain_recent_at(now)
    }

    /// Gives back the room of dropped buckets.
    pub fn shrink_to_fit(&self) {
        self.store.shrink_to_fit()
    }

    /// The number of keys that have a bucket in the store.
    pub fn len(&self) -> (n: usize) {
        self.store.len()
    }

    /// Whether no key has a bucket in the store.
    pub fn is_empty(&self) -> (empty: bool) {
        self.store.len() == 0
    }
}

} // verus!
