//! Bookkeeping of the benchmark loop.
//!
//! The harness spawns one child, then sends pings in a loop for a fixed
//! wall-clock duration and reports the completed round trips.  The loop's
//! decisions — when to stop, how to count — live here; clocks, threads and
//! the division into a floating-point rate stay with the unverified
//! harness around it.

use crate::errors::IpcError;
use vstd::prelude::*;

verus! {

/// The test duration used when none is configured.
pub const DEFAULT_TEST_DURATION_SECONDS: u64 = 10;

/// The configured duration, or the default where none was given.
pub fn duration_or_default(configured: Option<u64>) -> (d: u64)
    ensures
        d == match configured {
            Some(v) => v,
            None => DEFAULT_TEST_DURATION_SECONDS,
        },
{
    match configured {
        Some(v) => v,
        None => DEFAULT_TEST_DURATION_SECONDS,
    }
}

/// A duration in seconds, as milliseconds.
pub fn secs_to_millis(seconds: u64) -> (ms: u128)
    ensures
        ms == seconds as u128 * 1000,
{
    seconds as u128 * 1000
}

/// The loop's stop rule: stop once the elapsed wall-clock time exceeds the
/// configured duration.  The check runs only after a completed round trip,
/// so at least one round trip is counted before any stop.
pub fn should_stop(elapsed_ms: u128, duration_ms: u128) -> (r: bool)
    ensures
        r == (elapsed_ms > duration_ms),
{
    elapsed_ms > duration_ms
}

/// The running count of completed round trips.
#[derive(Debug, Clone, Copy, PartialEq, Eq, Structural)]
pub struct BenchState {
    /// Round trips completed so far.
    pub roundtrips: u64,
}

impl BenchState {
    /// Start counting from zero.
    pub fn new() -> (s: Self)
        ensures
            s.roundtrips == 0,
    {
        BenchState { roundtrips: 0 }
    }

    /// Count one completed round trip.
    pub fn record_roundtrip(&mut self) -> (r: Result<(), IpcError>)
        ensures
            old(self).roundtrips < u64::MAX ==> r == Ok::<(), IpcError>(())
                && final(self).roundtrips == old(self).roundtrips + 1,
            old(self).roundtrips == u64::MAX ==> r == Err::<(), IpcError>(IpcError::Overflow)
                && final(self).roundtrips == old(self).roundtrips,
    {
        if self.roundtrips == u64::MAX {
            return Err(IpcError::Overflow);
        }
        self.roundtrips = self.roundtrips + 1;
        Ok(())
    }

    /// Close the run into a report.
    pub fn report(self, test_duration_seconds: u64) -> (r: BenchReport)
        ensures
            r.roundtrips == self.roundtrips,
            r.test_duration_seconds == test_duration_seconds,
    {
        BenchReport { roundtrips: self.roundtrips, test_duration_seconds }
    }
}

/// What a benchmark run produced.  The rate is the round trips divided by
/// the duration; that division is floating point and is computed by the
/// caller from these two fields.
#[derive(Debug, Clone, Copy, PartialEq, Eq, Structural)]
pub struct BenchReport {
    /// Total completed round trips.
    pub roundtrips: u64,
    /// The configured duration of the run, in seconds.
    pub test_duration_seconds: u64,
}

} // verus!
