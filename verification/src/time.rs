//! Durations of std, read as nanoseconds.

use std::time::Duration;
use vstd::prelude::*;

verus! {

/// The whole of a duration in nanoseconds: what `Duration::as_nanos` returns
/// for it.
pub uninterp spec fn duration_nanos(duration: Duration) -> u128;

/// `Duration::as_nanos` returns the total number of nanoseconds that the
/// duration holds. The contract gives that number its name and claims nothing
/// else of it.
pub assume_specification[ Duration::as_nanos ](duration: &Duration) -> (nanos: u128)
    ensures
        nanos == duration_nanos(*duration),
;

} // verus!
