//! Per-frame timing.
//!
//! The scheduler computes each frame's `dt` from a millisecond reading of
//! the host's monotonic clock. The arithmetic is verified for every reading,
//! including one that runs backwards: such a reading yields `dt == 0` and
//! leaves the recorded time alone, so the recorded time never decreases and
//! `dt` is never negative.

use vstd::prelude::*;

verus! {

/// The monotonic clock type of the `instant` crate: `std::time::Instant` on
/// native targets, a `performance.now()` reading on the web.
#[verifier::external_type_specification]
#[verifier::external_body]
pub struct ExInstant(instant::Instant);

/// Relies on instant::Instant::now: a reading of the host's monotonic clock.
#[verifier::external_body]
fn instant_now() -> (reading: instant::Instant) {
    instant::Instant::now()
}

/// Relies on instant::Instant::elapsed and core::time::Duration::as_millis:
/// the whole milliseconds that passed since `earlier`.
#[verifier::external_body]
fn elapsed_millis(earlier: &instant::Instant) -> (millis: u128) {
    earlier.elapsed().as_millis()
}

/// The frame clock: an epoch taken at creation and the last time, in
/// milliseconds since that epoch, a frame was timed.
pub struct FrameClock {
    /// The moment the clock was created; frame times count from here.
    pub epoch: instant::Instant,
    /// Milliseconds since the epoch at which the last frame was timed.
    pub last_ms: u64,
}

impl FrameClock {
    /// The recorded time and the `dt` that timing a frame at `now_ms`
    /// yields: the elapsed time since the previous frame, and zero for a
    /// reading that ran backwards.
    pub open spec fn tick_step(last_ms: u64, now_ms: u64) -> (u64, u64) {
        if now_ms >= last_ms {
            (now_ms, (now_ms - last_ms) as u64)
        } else {
            (last_ms, 0u64)
        }
    }

    /// A clock whose epoch is now and whose last frame time is zero.
    pub fn new() -> (clock: FrameClock)
        ensures
            clock.last_ms == 0,
    {
        FrameClock { epoch: instant_now(), last_ms: 0 }
    }

    /// Milliseconds since this clock was created, saturated far beyond any
    /// reachable uptime.
    pub fn now_ms(&self) -> u64 {
        let millis = elapsed_millis(&self.epoch);
        if millis > 0xffff_ffff_ffff_ffff {
            u64::MAX
        } else {
            millis as u64
        }
    }

    /// Times a frame at `now_ms` and returns the `dt` to hand to the
    /// application's update step.
    pub fn tick(&mut self, now_ms: u64) -> (dt: u64)
        ensures
            (final(self).last_ms, dt) == FrameClock::tick_step(old(self).last_ms, now_ms),
            final(self).last_ms >= old(self).last_ms,
            final(self).epoch == old(self).epoch,
    {
        if now_ms >= self.last_ms {
            let dt = now_ms - self.last_ms;
            self.last_ms = now_ms;
            dt
        } else {
            0
        }
    }

    /// Restarts frame timing at `now_ms`, as bring-up does, so that the
    /// first frame does not measure the time spent acquiring the graphics
    /// context.
    pub fn reset(&mut self, now_ms: u64)
        ensures
            final(self).last_ms == now_ms,
            final(self).epoch == old(self).epoch,
    {
        self.last_ms = now_ms;
    }
}

} // verus!
