//! Timing helpers shared across the supervisor: a monotonic timer for
//! measuring probe round trips, and the global arguments bundle that hands
//! one out.

use vstd::prelude::*;

use core::time::Duration;
use std::time::Instant;

verus! {

#[verifier::external_type_specification]
#[verifier::external_body]
pub struct ExInstant(Instant);

/// Relies on `std::time::Instant::now`: an opaque reading of the monotonic
/// clock.
#[verifier::external_body]
fn instant_now() -> (r: Instant) {
    Instant::now()
}

/// Relies on `std::time::Instant::elapsed`: the time passed since the
/// instant was taken.
#[verifier::external_body]
fn instant_elapsed(start: &Instant) -> (r: Duration) {
    start.elapsed()
}

/// A running timer, started the moment it is created.
pub struct Timer {
    start: Instant,
}

impl Default for Timer {
    fn default() -> Self {
        Self::new()
    }
}

impl Timer {
    /// Starts a timer at the current instant.
    pub fn new() -> Self {
        Timer { start: instant_now() }
    }

    /// The time passed since the timer started.
    pub fn elapsed(&self) -> Duration {
        instant_elapsed(&self.start)
    }
}

/// Hands out timers.
#[derive(Debug, Clone, Copy, Default)]
pub struct TimerManager;

impl TimerManager {
    /// Starts a new timer.
    pub fn start(&self) -> Timer {
        Timer::new()
    }
}

/// The global arguments shared by the supervisor's tasks.
#[derive(Debug, Clone, Copy, Default)]
pub struct GlobalArgs {
    pub timer: TimerManager,
}

impl GlobalArgs {
    #[must_use]
    pub fn new() -> Self {
        GlobalArgs { timer: TimerManager }
    }
}

} // verus!
