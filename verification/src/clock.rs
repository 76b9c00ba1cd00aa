use std::time::Duration;
use std::time::Instant;
use vstd::prelude::*;

verus! {

/// `std::time::Instant`, one reading of the monotonic clock.
///
/// Nothing inside a reading is visible to the verifier: the library stores
/// readings and hands them back, and never computes on one.
#[verifier::external_type_specification]
#[verifier::external_body]
pub struct ExInstant(Instant);

/// `Instant::now` reads the monotonic clock. Nothing is claimed of the
/// reading: two calls may return anything.
pub assume_specification[ Instant::now ]() -> (now: Instant);

/// `Instant::elapsed` measures the time that went by since `earlier` was
/// read. It depends on the clock, so nothing is claimed of the result.
pub assume_specification[ Instant::elapsed ](earlier: &Instant) -> (elapsed: Duration);

/// `Duration::as_nanos` gives a duration as a whole number of nanoseconds.
/// Every duration that reaches it here comes from the clock, so nothing is
/// claimed of the number.
pub assume_specification[ Duration::as_nanos ](duration: &Duration) -> (nanos: u128);

} // verus!
