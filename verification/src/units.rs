//! Fixed-point base units shared by every subsystem.
//!
//! All metabolic quantities, times and world distances are integers counted
//! in 1/[`ONE`] of a whole unit. [`ONE`] is chosen so that every per-tick
//! rate of the core is an exact integer: the 48 Hz tick, satiety decay over
//! 45 s, starvation damage over 15 s, the 3/4000 stamina-effort factor and
//! the 180-unit sensor range all divide it evenly.

use vstd::prelude::*;

verus! {

/// One whole unit: 2^9 * 3^3 * 5^3 scaled by 1000.
pub const ONE: i64 = 1_728_000;

/// Upper bound of the metabolic range [0, 2] in fixed-point units.
pub const TWO: i64 = 3_456_000;

/// Duration of one fixed simulation tick (1/48 s): ONE / 48.
pub const TICK: i64 = 36_000;

/// Where a metabolic value lands after the per-tick re-clamp into [0, 2].
pub open spec fn clamped(v: int) -> int {
    if v < 0 {
        0
    } else if v > TWO {
        TWO as int
    } else {
        v
    }
}

/// The metabolic range invariant: a re-clamped value lies in [0, 2].
pub open spec fn in_metabolic_range(v: int) -> bool {
    0 <= v <= TWO
}

/// Clamp a fixed-point value into the metabolic range [0, 2].
pub fn clamp_metabolic(v: i64) -> (r: i64)
    ensures
        r == clamped(v as int),
        in_metabolic_range(r as int),
{
    if v < 0 {
        0
    } else if v > TWO {
        TWO
    } else {
        v
    }
}

/// Clamping is idempotent: a value already in range is left alone.
pub proof fn lemma_clamp_idempotent(v: int)
    ensures
        clamped(clamped(v)) == clamped(v),
        in_metabolic_range(v) ==> clamped(v) == v,
{
}

} // verus!
