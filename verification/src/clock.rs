//! The monotonic clock, read through `std::time`.

use vstd::prelude::*;
use std::time::{Duration, Instant};

verus! {

#[verifier::external_type_specification]
#[verifier::external_body]
pub struct ExInstant(Instant);

/// Calls `Instant::now`. The reading depends on the clock: nothing is stated of it.
#[verifier::external_body]
pub(crate) fn clock_now() -> (t: Instant) {
    Instant::now()
}

/// Calls `Instant::elapsed`. The reading depends on the clock: nothing is stated of it.
#[verifier::external_body]
pub(crate) fn clock_elapsed(origin: &Instant) -> (d: Duration) {
    origin.elapsed()
}

/// Calls `Instant::duration_since` for `now` and `earlier`. The readings depend on the
/// clock: nothing is stated of the result.
#[verifier::external_body]
pub(crate) fn clock_since(now: &Instant, earlier: &Instant) -> (d: Duration) {
    now.duration_since(*earlier)
}

/// Calls `Duration::as_millis`. `Duration` is opaque here, so nothing is stated of the
/// number.
#[verifier::external_body]
pub(crate) fn duration_millis(d: &Duration) -> (ms: u128) {
    d.as_millis()
}

} // verus!
