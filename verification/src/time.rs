//! Reading the monotonic clock. Durations are kept as whole nanoseconds.

use vstd::prelude::*;

verus! {

#[verifier::external_type_specification]
#[verifier::external_body]
pub struct ExInstant(std::time::Instant);

/// Calls `std::time::Instant::now`. The reading depends on the time of the call, so
/// nothing is promised of it.
#[verifier::external_body]
fn instant_now() -> (now: std::time::Instant) {
    std::time::Instant::now()
}

/// Calls `std::time::Instant::elapsed`: the time passed since `start`. It depends on the
/// time of the call, so nothing is promised of it.
#[verifier::external_body]
fn instant_elapsed(start: &std::time::Instant) -> (elapsed: std::time::Duration) {
    start.elapsed()
}

/// Calls `std::time::Duration::as_nanos`: the whole nanoseconds in `d`. The value of an
/// opaque duration is not modelled, so nothing is stated of the result.
#[verifier::external_body]
fn duration_as_nanos(d: &std::time::Duration) -> (nanos: u128) {
    d.as_nanos()
}

/// Narrows a count of nanoseconds to `u64`, saturating at `u64::MAX` (about 584 years).
pub fn saturate_nanos(nanos: u128) -> (n: u64)
    ensures
        n == if nanos > u64::MAX { u64::MAX as int } else { nanos as int },
{
    if nanos > u64::MAX as u128 {
        u64::MAX
    } else {
        nanos as u64
    }
}

/// A point on the monotonic clock.
pub fn now() -> (instant: std::time::Instant) {
    instant_now()
}

/// Nanoseconds passed since `start`, saturating at `u64::MAX`. The value depends on the
/// time of the call.
pub fn nanos_since(start: &std::time::Instant) -> (nanos: u64) {
    let elapsed = instant_elapsed(start);
    saturate_nanos(duration_as_nanos(&elapsed))
}

/// A stopwatch: measures the time between consecutive laps.
pub struct Clock {
    lap_start: std::time::Instant,
}

impl Clock {
    /// Starts the stopwatch now.
    pub fn new() -> (clock: Self) {
        Clock { lap_start: instant_now() }
    }

    /// Nanoseconds since the previous lap (or since `new`), and starts a new lap.
    pub fn stop_watch(&mut self) -> (lap: u64) {
        let lap = nanos_since(&self.lap_start);
        self.lap_start = instant_now();
        lap
    }
}

} // verus!
