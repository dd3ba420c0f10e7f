//! The growth and pruning coordinator.
//!
//! Three one-shot timers and one repeating review timer drive the
//! Controller Population's staged complexity growth: at 600 s two input
//! channels are added, at 2400 s four more; each growth event restarts a
//! 720 s grace period. The review timer sweeps stale species resources
//! and, once grace has elapsed, toggles pruning mode on every firing —
//! off with a long calm review period, on with a short aggressive one —
//! creating the grow / stabilize / alternate regime.

use vstd::prelude::*;

use crate::bridge::{InputSchema, BASE_ARITY, FULL_ARITY, MID_ARITY};

verus! {

/// Review period at simulation start: 60 s.
pub const REVIEW_INITIAL: i64 = 103_680_000;

/// Review period while the grace period still runs: 90 s.
pub const REVIEW_PRE_GRACE: i64 = 155_520_000;

/// Review period after grace with pruning just turned off: 180 s.
pub const REVIEW_CALM: i64 = 311_040_000;

/// Review period after grace with pruning just turned on: 20 s.
pub const REVIEW_PRUNE: i64 = 34_560_000;

/// Simulation time of the first arity-growth event: 600 s.
pub const GROW_FIRST_AT: i64 = 1_036_800_000;

/// Simulation time of the second arity-growth event: 2400 s.
pub const GROW_SECOND_AT: i64 = 4_147_200_000;

/// Grace period following the most recent growth event: 720 s.
pub const GRACE_PERIOD: i64 = 1_244_160_000;

/// The scheduler's clocks: the repeating review timer with its current
/// period, the two saturating one-shot growth timers, and the saturating
/// grace timer that growth events restart.
#[derive(Clone, Copy, PartialEq, Eq, Structural, Debug)]
pub struct Scheduler {
    pub review_elapsed: i64,
    pub review_period: i64,
    pub first_elapsed: i64,
    pub second_elapsed: i64,
    pub grace_elapsed: i64,
}

/// What one scheduler tick asks the world to do.
#[derive(Clone, Copy, PartialEq, Eq, Structural, Debug)]
pub struct TickPlan {
    /// Sweep species resources whose species died out.
    pub sweep: bool,
    /// Set the population's pruning mode to this value, if any.
    pub pruning_set: Option<bool>,
    /// Add the first two input channels and restart grace.
    pub grow_two: bool,
    /// Add the last four input channels and restart grace.
    pub grow_four: bool,
}

/// Whether the review timer wraps during a tick of `dt`.
pub open spec fn review_fires(s: Scheduler, dt: int) -> bool {
    s.review_elapsed + dt >= s.review_period
}

/// Whether the grace period had fully elapsed before the tick.
pub open spec fn grace_done(s: Scheduler) -> bool {
    s.grace_elapsed >= GRACE_PERIOD
}

/// Whether the first growth timer crosses its firing time during the tick.
pub open spec fn first_fires(s: Scheduler, dt: int) -> bool {
    s.first_elapsed < GROW_FIRST_AT && s.first_elapsed + dt >= GROW_FIRST_AT
}

/// Whether the second growth timer crosses its firing time during the tick.
pub open spec fn second_fires(s: Scheduler, dt: int) -> bool {
    s.second_elapsed < GROW_SECOND_AT && s.second_elapsed + dt >= GROW_SECOND_AT
}

/// The input arity the growth schedule has reached: 5, then 7, then 11.
pub open spec fn arity_stage(s: Scheduler) -> usize {
    if s.second_elapsed >= GROW_SECOND_AT {
        FULL_ARITY
    } else if s.first_elapsed >= GROW_FIRST_AT {
        MID_ARITY
    } else {
        BASE_ARITY
    }
}

impl Scheduler {
    /// Timers inside their ranges, the one-shots saturated at their caps,
    /// and the growth timers advancing in lockstep.
    pub open spec fn wf(self) -> bool {
        &&& 0 <= self.review_elapsed < self.review_period
        &&& (self.review_period == REVIEW_INITIAL || self.review_period == REVIEW_PRE_GRACE
            || self.review_period == REVIEW_CALM || self.review_period == REVIEW_PRUNE)
        &&& 0 <= self.first_elapsed <= GROW_FIRST_AT
        &&& 0 <= self.second_elapsed <= GROW_SECOND_AT
        &&& 0 <= self.grace_elapsed <= GRACE_PERIOD
        &&& self.first_elapsed == if self.second_elapsed >= GROW_FIRST_AT {
            GROW_FIRST_AT as int
        } else {
            self.second_elapsed as int
        }
    }

    /// The scheduler at simulation start: everything at zero, the review
    /// timer on its initial 60 s period.
    pub fn new() -> (r: Scheduler)
        ensures
            r.wf(),
            r.review_elapsed == 0,
            r.review_period == REVIEW_INITIAL,
            r.first_elapsed == 0,
            r.second_elapsed == 0,
            r.grace_elapsed == 0,
            arity_stage(r) == BASE_ARITY,
    {
        Scheduler {
            review_elapsed: 0,
            review_period: REVIEW_INITIAL,
            first_elapsed: 0,
            second_elapsed: 0,
            grace_elapsed: 0,
        }
    }

    /// One scheduler tick. `pruning_now` is the pruning flag currently set
    /// on the Controller Population.
    ///
    /// On a review firing the plan asks for a sweep and sets pruning:
    /// before grace has elapsed pruning is forced off and the review
    /// period becomes 90 s; after grace the flag toggles — on with a 20 s
    /// period, off with a 180 s one. A growth timer crossing its firing
    /// time asks for its channels and restarts grace. The two growth
    /// events can never fire on the same tick.
    pub fn tick(&mut self, dt: i64, pruning_now: bool) -> (plan: TickPlan)
        requires
            old(self).wf(),
            0 <= dt <= REVIEW_PRUNE,
        ensures
            final(self).wf(),
            plan.sweep == review_fires(*old(self), dt as int),
            plan.pruning_set == if review_fires(*old(self), dt as int) {
                Some(
                    if grace_done(*old(self)) {
                        !pruning_now
                    } else {
                        false
                    },
                )
            } else {
                None::<bool>
            },
            final(self).review_period == if !review_fires(*old(self), dt as int) {
                old(self).review_period as int
            } else if !grace_done(*old(self)) {
                REVIEW_PRE_GRACE as int
            } else if pruning_now {
                REVIEW_CALM as int
            } else {
                REVIEW_PRUNE as int
            },
            final(self).review_elapsed == if review_fires(*old(self), dt as int) {
                old(self).review_elapsed + dt - old(self).review_period
            } else {
                old(self).review_elapsed + dt
            },
            plan.grow_two == first_fires(*old(self), dt as int),
            plan.grow_four == second_fires(*old(self), dt as int),
            !(plan.grow_two && plan.grow_four),
            plan.grow_two ==> arity_stage(*old(self)) == BASE_ARITY && arity_stage(*final(self))
                == MID_ARITY,
            plan.grow_four ==> arity_stage(*old(self)) == MID_ARITY && arity_stage(*final(self))
                == FULL_ARITY,
            !plan.grow_two && !plan.grow_four ==> arity_stage(*final(self)) == arity_stage(
                *old(self),
            ),
            final(self).grace_elapsed == if plan.grow_two || plan.grow_four {
                if dt > GRACE_PERIOD {
                    GRACE_PERIOD as int
                } else {
                    dt as int
                }
            } else {
                if old(self).grace_elapsed + dt > GRACE_PERIOD {
                    GRACE_PERIOD as int
                } else {
                    old(self).grace_elapsed + dt
                }
            },
    {
        // the repeating review timer first, before the growth timers advance
        let fired: bool = self.review_elapsed + dt >= self.review_period;
        let mut pruning_set: Option<bool> = None;
        self.review_elapsed = self.review_elapsed + dt;
        if fired {
            self.review_elapsed = self.review_elapsed - self.review_period;
            if self.grace_elapsed >= GRACE_PERIOD {
                if pruning_now {
                    pruning_set = Some(false);
                    self.review_period = REVIEW_CALM;
                } else {
                    pruning_set = Some(true);
                    self.review_period = REVIEW_PRUNE;
                }
            } else {
                pruning_set = Some(false);
                self.review_period = REVIEW_PRE_GRACE;
            }
        }
        // the two one-shot growth timers
        let grow_two: bool = self.first_elapsed < GROW_FIRST_AT && self.first_elapsed + dt
            >= GROW_FIRST_AT;
        self.first_elapsed = if self.first_elapsed + dt > GROW_FIRST_AT {
            GROW_FIRST_AT
        } else {
            self.first_elapsed + dt
        };
        let grow_four: bool = self.second_elapsed < GROW_SECOND_AT && self.second_elapsed + dt
            >= GROW_SECOND_AT;
        self.second_elapsed = if self.second_elapsed + dt > GROW_SECOND_AT {
            GROW_SECOND_AT
        } else {
            self.second_elapsed + dt
        };
        // the grace timer, restarted by a growth event, advanced last
        if grow_two || grow_four {
            self.grace_elapsed = 0;
        }
        self.grace_elapsed = if self.grace_elapsed + dt > GRACE_PERIOD {
            GRACE_PERIOD
        } else {
            self.grace_elapsed + dt
        };
        TickPlan { sweep: fired, pruning_set, grow_two, grow_four }
    }
}

/// Apply a tick plan's growth to the input schema. Keeping the schema in
/// step with the scheduler is what makes the population's fatal arity
/// check unreachable.
pub fn apply_growth(plan: &TickPlan, schema: &mut InputSchema)
    requires
        plan.grow_two ==> old(schema).arity == BASE_ARITY,
        plan.grow_four ==> old(schema).arity == MID_ARITY,
        !(plan.grow_two && plan.grow_four),
    ensures
        final(schema).arity == if plan.grow_two {
            MID_ARITY as int
        } else if plan.grow_four {
            FULL_ARITY as int
        } else {
            old(schema).arity as int
        },
{
    if plan.grow_two {
        schema.grow_two();
    } else if plan.grow_four {
        schema.grow_four();
    }
}

} // verus!
