//! Monotonic time: the moments at which loading or a sound started, and the
//! time elapsed since.

use vstd::prelude::*;
use std::time::{Duration, Instant};

verus! {

/// `std::time::Instant`, a moment of the monotonic clock; opaque here.
#[verifier::external_type_specification]
#[verifier::external_body]
pub struct ExInstant(Instant);

/// Calls `Instant::now`: the current moment. It depends on the clock, so
/// nothing is stated of it.
#[verifier::external_body]
pub(crate) fn instant_now() -> Instant {
    Instant::now()
}

/// Calls `Instant::elapsed`: the time passed since `start`. It depends on
/// the clock, so nothing is stated of it.
#[verifier::external_body]
pub(crate) fn instant_elapsed(start: &Instant) -> Duration {
    start.elapsed()
}

/// Calls `Duration::as_nanos`: the whole nanoseconds of `d`. The duration
/// is opaque here, so nothing is stated of the number.
#[verifier::external_body]
pub(crate) fn duration_as_nanos(d: &Duration) -> u128 {
    d.as_nanos()
}

/// Calls `Duration::as_millis`: the whole milliseconds of `d`. The duration
/// is opaque here, so nothing is stated of the number.
#[verifier::external_body]
pub(crate) fn duration_as_millis(d: &Duration) -> u128 {
    d.as_millis()
}

} // verus!
