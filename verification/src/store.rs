//! The concurrent map that keeps one arrival time per key.
//!
//! The map is the one of the governor crate: each entry is one atomic integer, and a check of a
//! key is a compare-and-swap loop on that key's entry alone, so checks of
//! different keys do not wait for each other and no update of one key is lost.
//! It is shared by reference and changes behind a shared reference, so the
//! contracts here name no contents: they say what holds of every value that an
//! entry may have held when it was read.

use crate::gcra::conforms;
use crate::gcra::decide;
use crate::gcra::decision_for;
use crate::gcra::Decision;
use crate::quota::Quota;
use governor::nanos::Nanos;
use governor::state::keyed::DashMapStateStore;
use governor::state::keyed::ShrinkableKeyedStateStore;
use governor::state::StateStore;
use std::hash::Hash;
use vstd::prelude::*;

verus! {

/// `DashMapStateStore` of the governor crate, a concurrent hash map from a key to the
/// arrival time of its bucket. Verus sees nothing inside it.
#[derive(Debug)]
#[verifier::external_body]
#[verifier::reject_recursive_types(K)]
pub struct KeyedStateStore<K: Hash + Eq + Clone> {
    inner: DashMapStateStore<K>,
}

impl<K: Hash + Eq + Clone> KeyedStateStore<K> {
    /// `DashMapStateStore::default`: a map without entries. Nothing is claimed
    /// of it.
    #[verifier::external_body]
    pub(crate) fn new() -> (store: Self) {
        KeyedStateStore { inner: DashMapStateStore::default() }
    }

    /// `StateStore::measure_and_replace` on the map, with [`decide`] as
    /// the measurement. The map reads the arrival time stored for `key` (none
    /// where the key has no entry), hands it to the measurement, and stores
    /// what an admitted check returns; where another thread changed the entry
    /// in between, it measures again on the new value. What comes back is
    /// therefore the decision of [`decide`] on some value that the entry held:
    /// the contract claims that, and does not say which value it was.
    #[verifier::external_body]
    pub(crate) fn measure_and_replace(&self, key: &K, now: u64, quota: &Quota) -> (r: Result<
        Decision,
        Decision,
    >)
        ensures
            exists|state: Option<u64>|
                match r {
                    Ok(d) => conforms(state, now, *quota) && d == #[trigger] decision_for(
                        state,
                        now,
                        *quota,
                    ),
                    Err(d) => !conforms(state, now, *quota) && d == #[trigger] decision_for(
                        state,
                        now,
                        *quota,
                    ),
                },
    {
        self.inner.measure_and_replace(
            key,
            |tat: Option<Nanos>|
                decide(tat.map(Nanos::as_u64), now, quota).map(|(d, next)| (d, Nanos::new(next))),
        )
    }

    /// `ShrinkableKeyedStateStore::retain_recent` on the map: drops the
    /// entries whose arrival time is `drop_below` or earlier. It returns
    /// nothing, and nothing is claimed of it.
    #[verifier::external_body]
    pub(crate) fn retain_recent(&self, drop_below: u64) {
        self.inner.retain_recent(Nanos::new(drop_below))
    }

    /// `ShrinkableKeyedStateStore::shrink_to_fit` on the map: gives
    /// unused room back. It returns nothing, and nothing is claimed of it.
    #[verifier::external_body]
    pub(crate) fn shrink_to_fit(&self) {
        ShrinkableKeyedStateStore::shrink_to_fit(&self.inner)
    }

    /// `ShrinkableKeyedStateStore::len` on the map: the number of
    /// entries at some moment during the call. Other threads may add and drop
    /// entries meanwhile, so nothing is claimed of the number.
    #[verifier::external_body]
    pub(crate) fn len(&self) -> (n: usize) {
        ShrinkableKeyedStateStore::len(&self.inner)
    }
}

} // verus!
