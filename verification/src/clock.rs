//! The autoplay clock: given a monotonic timestamp in milliseconds and the
//! current speed, decides whether a new generation is due this frame. While
//! disabled it never fires, whatever time has elapsed.

use vstd::prelude::*;

verus! {

use crate::speed::Speed;

/// The autoplay step interval in milliseconds for a speed multiplier.
pub open spec fn interval_ms(multiplier: int) -> int
    recommends
        multiplier > 0,
{
    1000int / multiplier
}

pub struct AutoplayClock {
    pub enabled: bool,
    pub last_step: u64,
}

impl AutoplayClock {
    /// A fresh clock: disabled, with the interval measured from `now`.
    pub fn new(now: u64) -> (r: AutoplayClock)
        ensures
            !r.enabled,
            r.last_step == now,
    {
        AutoplayClock { enabled: false, last_step: now }
    }

    /// Switches autoplay on or off. On the disabled-to-enabled transition
    /// the interval baseline resets to `now`, so re-enabling never fires an
    /// immediate unintended step; in every other case the baseline is kept.
    pub fn set_enabled(&mut self, enabled: bool, now: u64)
        ensures
            final(self).enabled == enabled,
            final(self).last_step == (if enabled && !old(self).enabled {
                now
            } else {
                old(self).last_step
            }),
    {
        if enabled && !self.enabled {
            self.last_step = now;
        }
        self.enabled = enabled;
    }

    /// Decides whether a generation is due: exactly when autoplay is
    /// enabled and at least `1000 / multiplier` milliseconds have passed
    /// since the last step. On a step the baseline advances to `now`;
    /// otherwise nothing changes, so the baseline moves monotonically.
    pub fn maybe_step(&mut self, now: u64, speed: &Speed) -> (step: bool)
        requires
            speed.wf(),
            now >= old(self).last_step,
        ensures
            step == (old(self).enabled && now - old(self).last_step >= interval_ms(
                speed.speed as int,
            )),
            final(self).enabled == old(self).enabled,
            final(self).last_step == (if step {
                now
            } else {
                old(self).last_step
            }),
            final(self).last_step >= old(self).last_step,
    {
        let interval: u64 = 1000 / (speed.speed as u64);
        if self.enabled && now - self.last_step >= interval {
            self.last_step = now;
            true
        } else {
            false
        }
    }
}

} // verus!
