//! The monotonic clock, read as the time elapsed since a pool was built.

use vstd::prelude::*;
use std::time::Instant;

use crate::duration::Duration;

verus! {

/// Declares `std::time::Instant`.
#[verifier::external_type_specification]
#[verifier::external_body]
pub struct ExInstant(Instant);

/// Calls `Instant::now`. Nothing is claimed of the result.
#[verifier::external_body]
pub(crate) fn clock_start() -> Instant {
    Instant::now()
}

/// Calls `Instant::elapsed` on `start` and returns the elapsed time as whole
/// seconds (`Duration::as_secs`) and the sub-second part in nanoseconds
/// (`Duration::subsec_nanos`, documented to be below one billion). Nothing
/// else is claimed: the value depends on the clock.
#[verifier::external_body]
fn elapsed_parts(start: &Instant) -> (parts: (u64, u32))
    ensures
        parts.1 < 1_000_000_000,
{
    let elapsed = start.elapsed();
    (elapsed.as_secs(), elapsed.subsec_nanos())
}

/// The time elapsed since `start`.
pub(crate) fn elapsed_since(start: &Instant) -> Duration {
    let (secs, nanos) = elapsed_parts(start);
    Duration::new(secs, nanos)
}

} // verus!
