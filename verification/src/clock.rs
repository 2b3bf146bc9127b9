//! The monotonic clock: the default clock of the governor crate, read in
//! nanoseconds.

use governor::clock::Clock;
use governor::clock::QuantaClock;
use governor::clock::QuantaInstant;
use governor::clock::Reference;
use vstd::prelude::*;

verus! {

/// The default clock of the governor crate, which reads the machine's
/// monotonic time.
#[verifier::external_type_specification]
#[verifier::external_body]
pub struct ExQuantaClock(QuantaClock);

/// One reading of [`QuantaClock`].
#[verifier::external_type_specification]
#[verifier::external_body]
pub struct ExQuantaInstant(QuantaInstant);

/// `QuantaClock::default`: a handle on the monotonic clock. Nothing is claimed
/// of it.
#[verifier::external_body]
pub(crate) fn default_clock() -> (clock: QuantaClock) {
    QuantaClock::default()
}

/// `Clock::now` on the default clock: the current reading. It differs
/// from call to call, so nothing is claimed of it.
#[verifier::external_body]
pub(crate) fn read_clock(clock: &QuantaClock) -> (instant: QuantaInstant) {
    clock.now()
}

/// `Reference::duration_since` on two readings: the nanoseconds from
/// `earlier` to `later`, zero where `later` is the earlier one. The readings
/// are opaque, so nothing is claimed of the number.
#[verifier::external_body]
pub(crate) fn nanos_between(earlier: &QuantaInstant, later: &QuantaInstant) -> (nanos: u64) {
    later.duration_since(*earlier).as_u64()
}

} // verus!
