//! A monotonic clock with integer readings.
use std::time::Duration;
use std::time::Instant;
use vstd::prelude::*;

verus! {

#[verifier::external_type_specification]
#[verifier::external_body]
pub struct ExInstant(Instant);

/// Reads the time in nanoseconds since the clock was made.
///
/// Nothing is known of a reading in advance, so every function that takes one
/// is verified for all of them.
pub struct Clock {
    origin: Instant,
}

/// `std::time::Instant::now`: the current instant of the monotonic system
/// clock. Nothing is claimed of it.
#[verifier::external_body]
fn instant_now() -> Instant {
    Instant::now()
}

/// `std::time::Instant::elapsed`: the time that has passed since `origin`
/// was taken. Nothing is claimed of the amount.
#[verifier::external_body]
fn elapsed_since(origin: &Instant) -> Duration {
    origin.elapsed()
}

/// `std::time::Duration::as_nanos`: the span in whole nanoseconds. Nothing
/// is claimed of the number.
#[verifier::external_body]
fn whole_nanos(span: &Duration) -> u128 {
    span.as_nanos()
}

impl Clock {
    /// Starts a clock that reads zero now.
    pub fn new() -> Clock {
        Clock { origin: instant_now() }
    }

    /// The current reading. A clock that has run for longer than 64 bits of
    /// nanoseconds can count, some 584 years, stays at the largest reading.
    pub fn now(&self) -> u64 {
        let span: Duration = elapsed_since(&self.origin);
        let nanos: u128 = whole_nanos(&span);
        reading_of(nanos)
    }
}

/// The reading that stands for a count of nanoseconds: the count itself,
/// or the largest reading where the count is beyond it.
pub open spec fn clipped(nanos: u128) -> u64 {
    if nanos > u64::MAX {
        u64::MAX
    } else {
        nanos as u64
    }
}

/// Turns a count of nanoseconds into a reading.
pub fn reading_of(nanos: u128) -> (reading: u64)
    ensures
        reading == clipped(nanos),
{
    if nanos > u64::MAX as u128 {
        u64::MAX
    } else {
        nanos as u64
    }
}

} // verus!
