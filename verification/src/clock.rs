//! The BioClock: two independent periodic tri-state rhythms fed to every
//! controller as exogenous inputs.
//!
//! Each signal cycles -1 -> 0 -> 1 -> -1 on its own repeating timer; both
//! are pure functions of elapsed time and are read identically by every
//! agent within a tick.

use vstd::prelude::*;

use crate::units::ONE;

verus! {

/// Period of the short rhythm: half a second.
pub const SHORT_PERIOD: i64 = 864_000;

/// Period of the long rhythm: four seconds.
pub const LONG_PERIOD: i64 = 6_912_000;

/// The next value of a tri-state signal: -1 -> 0 -> 1 -> -1.
pub open spec fn next_tri(s: int) -> int {
    if s == -1 {
        0
    } else if s == 0 {
        1
    } else {
        -1
    }
}

/// A value a tri-state signal can hold.
pub open spec fn is_tri(s: int) -> bool {
    s == -1 || s == 0 || s == 1
}

/// The two rhythm timers and their current signals. Signals are plain
/// -1/0/1; scale by [`ONE`] before feeding them to a controller.
#[derive(Clone, Copy, PartialEq, Eq, Structural, Debug)]
pub struct BioClock {
    pub short_elapsed: i64,
    pub long_elapsed: i64,
    pub short_state: i64,
    pub long_state: i64,
}

impl BioClock {
    /// Timers inside their periods, signals tri-state.
    pub open spec fn wf(self) -> bool {
        0 <= self.short_elapsed < SHORT_PERIOD && 0 <= self.long_elapsed < LONG_PERIOD && is_tri(
            self.short_state as int,
        ) && is_tri(self.long_state as int)
    }

    /// The clock at simulation start: the short rhythm at 0, the long at 1.
    pub fn new() -> (r: BioClock)
        ensures
            r.wf(),
            r.short_state == 0,
            r.long_state == 1,
            r.short_elapsed == 0,
            r.long_elapsed == 0,
    {
        BioClock { short_elapsed: 0, long_elapsed: 0, short_state: 0, long_state: 1 }
    }

    /// Advance both rhythms by one slice of time. Each signal steps once
    /// when its timer wraps; the timers keep the overshoot.
    pub fn tick(&mut self, dt: i64)
        requires
            old(self).wf(),
            0 <= dt <= SHORT_PERIOD,
        ensures
            final(self).wf(),
            final(self).short_elapsed == if old(self).short_elapsed + dt >= SHORT_PERIOD {
                old(self).short_elapsed + dt - SHORT_PERIOD
            } else {
                old(self).short_elapsed + dt
            },
            final(self).short_state == if old(self).short_elapsed + dt >= SHORT_PERIOD {
                next_tri(old(self).short_state as int)
            } else {
                old(self).short_state as int
            },
            final(self).long_elapsed == if old(self).long_elapsed + dt >= LONG_PERIOD {
                old(self).long_elapsed + dt - LONG_PERIOD
            } else {
                old(self).long_elapsed + dt
            },
            final(self).long_state == if old(self).long_elapsed + dt >= LONG_PERIOD {
                next_tri(old(self).long_state as int)
            } else {
                old(self).long_state as int
            },
    {
        self.short_elapsed = self.short_elapsed + dt;
        if self.short_elapsed >= SHORT_PERIOD {
            self.short_elapsed = self.short_elapsed - SHORT_PERIOD;
            self.short_state = if self.short_state == -1 {
                0
            } else if self.short_state == 0 {
                1
            } else {
                -1
            };
        }
        self.long_elapsed = self.long_elapsed + dt;
        if self.long_elapsed >= LONG_PERIOD {
            self.long_elapsed = self.long_elapsed - LONG_PERIOD;
            self.long_state = if self.long_state == -1 {
                0
            } else if self.long_state == 0 {
                1
            } else {
                -1
            };
        }
    }

    /// The short signal scaled into fixed-point units for the input vector.
    pub fn short_channel(&self) -> (r: i64)
        requires
            self.wf(),
        ensures
            r == self.short_state * ONE,
    {
        self.short_state * ONE
    }

    /// The long signal scaled into fixed-point units for the input vector.
    pub fn long_channel(&self) -> (r: i64)
        requires
            self.wf(),
        ensures
            r == self.long_state * ONE,
    {
        self.long_state * ONE
    }
}

/// A tri-state signal never leaves {-1, 0, 1}: the successor of a
/// tri-state value is tri-state again, so no other value can ever be
/// observed.
pub proof fn lemma_tri_closed(s: int)
    requires
        is_tri(s),
    ensures
        is_tri(next_tri(s)),
{
}

} // verus!
