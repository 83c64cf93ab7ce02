//! Trusted declarations of the host monotonic clock. The tracer and the
//! metrics recorder time operations with `std::time::Instant`; nothing is
//! promised of the values the clock yields, so every contract that uses
//! them holds whatever the clock returns.

use vstd::prelude::*;

verus! {

#[verifier::external_type_specification]
#[verifier::external_body]
pub struct ExInstant(std::time::Instant);

/// Relies on std::time::Instant::now: an opaque monotonic timestamp;
/// nothing is promised of its value.
pub assume_specification[ std::time::Instant::now ]() -> std::time::Instant;

/// Relies on std::time::Instant::duration_since: the time elapsed between
/// two instants; it saturates to zero when `earlier` is later and never
/// panics. Nothing is promised of its value.
pub assume_specification[ std::time::Instant::duration_since ](
    this: &std::time::Instant,
    earlier: std::time::Instant,
) -> core::time::Duration;

/// Relies on core::time::Duration::as_micros: the duration expressed in
/// whole microseconds; never panics. Nothing is promised of its value.
pub assume_specification[ core::time::Duration::as_micros ](
    d: &core::time::Duration,
) -> u128;

} // verus!
