//! Readings of the monotonic clock, in microseconds since a starting point.
use std::time::Instant;
use vstd::prelude::*;

verus! {

#[verifier::external_type_specification]
#[verifier::external_body]
pub struct ExInstant(Instant);

/// Relies on `std::time::Instant::now`: a reading of the monotonic clock.
#[verifier::external_body]
pub(crate) fn clock_start() -> Instant {
    Instant::now()
}

/// Relies on `std::time::Instant::elapsed`: whole microseconds since `start`,
/// as a 64-bit count.
#[verifier::external_body]
pub(crate) fn micros_since(start: &Instant) -> u64 {
    start.elapsed().as_micros() as u64
}

} // verus!
