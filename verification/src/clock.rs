//! The clock a test is timed by.

use std::time::{Duration, Instant};
use vstd::prelude::*;

verus! {

/// Trusted: `std::time::Instant`, a reading of the monotonic clock. Verified
/// code carries such a reading around and never looks inside it.
#[verifier::external_type_specification]
#[verifier::external_body]
pub struct ExInstant(std::time::Instant);

/// Trusted: `Instant::now` reads the clock. Nothing is claimed of the
/// reading.
pub assume_specification[ Instant::now ]() -> (reading: Instant)
;

/// Trusted: `Instant::elapsed` gives the time that has passed since the
/// reading was taken. Nothing is claimed of the amount: it depends on when the
/// call is made.
pub assume_specification[ Instant::elapsed ](start: &Instant) -> (elapsed: Duration)
;

/// Trusted: `Duration::as_nanos` gives a length of time in whole
/// nanoseconds. Nothing is claimed of the number.
pub assume_specification[ Duration::as_nanos ](duration: &Duration) -> (nanos: u128)
;

/// The time that has passed since `start`, in whole nanoseconds, by the
/// clock's present reading.
pub fn nanos_since(start: &Instant) -> (nanos: u128) {
    start.elapsed().as_nanos()
}

} // verus!
