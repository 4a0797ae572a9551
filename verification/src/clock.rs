//! The system clock, as far as the breaker needs it.
//!
//! Nothing here is proved: these are the statements about `std::time` on
//! which the clock-reading methods of the breaker rest.

use vstd::prelude::*;
use std::time::{Duration, Instant};

verus! {

/// `std::time::Instant`, a point on the monotonic clock. Its inside is
/// hidden from the verifier; the breaker only carries one along.
#[verifier::external_type_specification]
#[verifier::external_body]
pub struct ExInstant(Instant);

/// The length of a `Duration` in whole nanoseconds, as
/// `Duration::as_nanos` reports it.
pub uninterp spec fn duration_nanos(d: Duration) -> nat;

/// `Instant::now` reads the clock. Nothing is claimed of the reading.
pub assume_specification[ Instant::now ]() -> (now: Instant);

/// `Instant::elapsed` measures the time since the instant was taken; it
/// gives zero rather than failing when the clock has gone backwards.
/// Nothing is claimed of the length it returns.
pub assume_specification[ Instant::elapsed ](then: &Instant) -> (passed: Duration);

/// `Duration::as_nanos` gives the length of the duration in whole
/// nanoseconds; the same duration always gives the same number.
pub assume_specification[ Duration::as_nanos ](d: &Duration) -> (nanos: u128)
    ensures
        nanos == duration_nanos(*d),
;

} // verus!
