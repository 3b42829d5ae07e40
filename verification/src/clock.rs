//! The clock: the only part of the library whose results depend on when
//! it runs. Nothing is claimed of what these functions return.

use vstd::prelude::*;
use std::time::Duration;
use std::time::Instant;

verus! {

#[verifier::external_type_specification]
#[verifier::external_body]
pub struct ExInstant(std::time::Instant);

/// Calls chrono's `Utc::now` and formats the result with its
/// `DateTime::to_rfc3339`. The text depends on the wall clock, so the
/// contract promises nothing about it.
#[verifier::external_body]
pub(crate) fn timestamp_now() -> String {
    chrono::Utc::now().to_rfc3339()
}

/// Calls std's `Instant::now`. The instant depends on the clock.
#[verifier::external_body]
pub(crate) fn instant_now() -> Instant {
    Instant::now()
}

/// Calls std's `Instant::elapsed`. The duration depends on the clock.
#[verifier::external_body]
pub(crate) fn instant_elapsed(start: &Instant) -> Duration {
    start.elapsed()
}

/// Calls std's `Duration::as_millis`: the whole milliseconds of a duration.
#[verifier::external_body]
pub(crate) fn duration_millis(duration: &Duration) -> u128 {
    duration.as_millis()
}

/// The whole milliseconds since `start`, cut to 64 bits.
pub(crate) fn elapsed_millis(start: &Instant) -> u64 {
    let elapsed = instant_elapsed(start);
    let millis: u128 = duration_millis(&elapsed);
    crate::arith::low_u64(millis)
}

} // verus!
