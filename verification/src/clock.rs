//! The time source used to measure how long one dispatch takes.
//!
//! On platforms with a reliable monotonic clock this is
//! `std::time::Instant`; nothing is assumed about the readings themselves,
//! so every contract downstream holds whatever the clock reports.

use std::time::Instant;
use vstd::prelude::*;

verus! {

/// `std::time::Instant`, declared so a dispatch in flight can carry the
/// clock reading taken when it began. The value is opaque: no contract
/// depends on what the clock returned.
#[verifier::external_type_specification]
#[verifier::external_body]
pub struct ExInstant(Instant);

/// Relies on `std::time::Instant::now`: an opaque reading of the monotonic
/// clock. Nothing can be promised of the value.
#[verifier::external_body]
pub fn now() -> Instant {
    Instant::now()
}

/// Relies on `std::time::Instant::elapsed`: the time since `start` was
/// taken, handed back as whole nanoseconds (`Duration::as_nanos`). The
/// clock decides the value, so nothing is promised of it; it is
/// non-negative by its type.
#[verifier::external_body]
pub fn elapsed(start: Instant) -> u128 {
    start.elapsed().as_nanos()
}

} // verus!
