//! A stopwatch on the system's monotonic clock, used to time frames.

use vstd::prelude::*;
use std::time::{Duration, Instant};

verus! {

#[verifier::external_type_specification]
#[verifier::external_body]
pub struct ExInstant(Instant);

/// Relies on `std::time::Instant::now`: a reading of the monotonic
/// clock. Nothing is known of its value.
#[verifier::external_body]
fn now() -> (r: Instant) {
    Instant::now()
}

/// Relies on `std::time::Instant::saturating_duration_since`: the time
/// from `earlier` to `later`, or zero when `earlier` is the later one. It
/// does not panic.
#[verifier::external_body]
fn duration_between(later: &Instant, earlier: &Instant) -> (r: Duration) {
    later.saturating_duration_since(*earlier)
}

/// A stopwatch: it remembers when it was started or last restarted and
/// reports the time passed since.
pub struct Clock {
    last_restart: Instant,
}

impl Clock {
    /// Creates a clock and starts it.
    pub fn begin() -> (r: Clock) {
        Clock { last_restart: now() }
    }

    /// Returns the time passed since the clock was started or last
    /// restarted.
    pub fn elapsed(&self) -> (r: Duration) {
        let current = now();
        duration_between(&current, &self.last_restart)
    }

    /// Restarts the clock, returning the time passed before the restart.
    pub fn restart(&mut self) -> (r: Duration) {
        let current = now();
        let elapsed = duration_between(&current, &self.last_restart);
        self.last_restart = current;
        elapsed
    }
}

} // verus!
