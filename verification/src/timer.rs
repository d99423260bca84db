//! A reusable countdown timer.
//!
//! One value type serves every cooldown in the simulation: weapon
//! cooldowns, collision cooldowns, AI phase clocks and self-destruct
//! delays.  A timer counts down from its duration in fixed-point
//! seconds and is expired exactly when it reaches zero; resetting
//! rewinds it to the full duration.

use vstd::prelude::*;

verus! {

/// No timer in the simulation runs longer than a day.
pub const DURATION_LIMIT: i64 = 86_400_000;

#[derive(Clone, Copy, PartialEq, Eq, Structural, Debug)]
pub struct CountdownTimer {
    pub duration: i64,
    pub remaining: i64,
}

impl CountdownTimer {
    pub open spec fn wf(self) -> bool {
        &&& 0 <= self.duration <= DURATION_LIMIT
        &&& 0 <= self.remaining <= self.duration
    }

    /// A timer is expired when it has counted all the way down.
    pub open spec fn spec_expired(self) -> bool {
        self.remaining == 0
    }

    /// The remaining time after counting down by `dt`, saturating at zero.
    pub open spec fn spec_after_tick(self, dt: int) -> int {
        if self.remaining - dt >= 0 {
            self.remaining - dt
        } else {
            0
        }
    }

    /// A fresh timer that must first count down a full `duration`.
    pub fn from_duration(duration: i64) -> (r: CountdownTimer)
        requires
            0 <= duration <= DURATION_LIMIT,
        ensures
            r.wf(),
            r.duration == duration,
            r.remaining == duration,
    {
        CountdownTimer { duration, remaining: duration }
    }

    pub fn is_expired(&self) -> (b: bool)
        ensures
            b == self.spec_expired(),
    {
        self.remaining == 0
    }

    /// Count down by `dt`, stopping at zero.
    pub fn tick(&mut self, dt: i64)
        requires
            old(self).wf(),
            dt >= 0,
        ensures
            final(self).wf(),
            final(self).duration == old(self).duration,
            final(self).remaining == old(self).spec_after_tick(dt as int),
    {
        if self.remaining > dt {
            self.remaining = self.remaining - dt;
        } else {
            self.remaining = 0;
        }
    }

    /// Rewind to the full duration.
    pub fn reset(&mut self)
        requires
            old(self).wf(),
        ensures
            final(self).wf(),
            final(self).duration == old(self).duration,
            final(self).remaining == old(self).duration,
    {
        self.remaining = self.duration;
    }
}

/// A running timer stays unexpired under ticking until its remaining
/// time has elapsed: the collision cooldown can suppress a pair for
/// the whole cooldown window.
pub proof fn lemma_reset_holds_until_elapsed(t: CountdownTimer, dt: int)
    requires
        t.wf(),
        0 <= dt < t.remaining,
    ensures
        t.spec_after_tick(dt) > 0,
{
}

} // verus!
