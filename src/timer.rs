use std::time::{Duration, Instant};
use vstd::prelude::*;

verus! {

#[verifier::external_type_specification]
#[verifier::external_body]
pub struct ExInstant(Instant);

/// Relies on `std::time::Instant::now`: an instant of the monotonic clock.
/// Nothing is known of it.
pub assume_specification[ Instant::now ]() -> Instant;

/// Relies on `std::time::Instant::elapsed`: the time since the instant,
/// zero when the clock reads earlier. Nothing more is known of it.
pub assume_specification[ Instant::elapsed ](instant: &Instant) -> Duration;

/// Measures the time since it was started or last restarted.
pub struct Timer {
    start: Instant,
}

impl Timer {
    pub fn new() -> Timer {
        Timer { start: Instant::now() }
    }

    /// The time since the start.
    pub fn elapsed(&self) -> Duration {
        self.start.elapsed()
    }

    /// Starts again from now, and returns the time measured until then.
    pub fn restart(&mut self) -> Duration {
        let elapsed = self.elapsed();
        *self = Timer::new();
        elapsed
    }
}

} // verus!
