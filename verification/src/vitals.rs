//! The metabolic triple: health, satiety and stamina.
//!
//! Each simulation tick decays satiety, converts starvation into health
//! damage, and charges stamina for fast movement. A stamina deficit is paid
//! first from satiety while any satiety is left, else from health. After
//! all per-tick mutation every value is re-clamped into [0, 2].

use vstd::prelude::*;

use crate::units::{clamped, in_metabolic_range, ONE, TICK, TWO};

verus! {

/// Satiety lost every tick: TICK / 45.
pub const SATIETY_DECAY: i64 = 800;

/// Health lost every tick while satiety is exhausted: TICK / 15.
pub const STARVE_DAMAGE: i64 = 2_400;

/// Below this cached speed (10 units/s) stamina recovers instead of draining.
pub const RECOVER_SPEED_LIMIT: i64 = 17_280_000;

/// Speed offset of the effort cost (9 units/s): cost grows with (speed - 9)^2.
pub const EFFORT_FLOOR: i64 = 15_552_000;

/// Divisor of the squared speed surplus: (speed-9)^2 * (3/4000) / 48 in
/// fixed-point units comes out as (v - EFFORT_FLOOR)^2 / (64000 * ONE).
pub const EFFORT_DIVISOR: i64 = 110_592_000_000;

/// Machine cap on the cached speed a tick accepts (1000 units/s), so that
/// the squared surplus stays inside 64-bit arithmetic.
pub const SPEED_CAP: i64 = 1_728_000_000;

/// Safe upper bound of the per-tick effort cost at SPEED_CAP (100 units).
pub const COST_CAP: i64 = 172_800_000;

/// Machine headroom bound on incoming metabolic values; the world re-clamps
/// every tick, so real values stay far below it.
pub const VITAL_BOUND: i64 = 1_000_000_000_000;

/// The metabolic triple of one agent, in fixed-point units of [`ONE`].
#[derive(Clone, Copy, PartialEq, Eq, Structural, Debug)]
pub struct Vitals {
    pub hp: i64,
    pub satiety: i64,
    pub stamina: i64,
}

impl Vitals {
    /// The spawn state: every value at 1.0.
    pub fn fresh() -> (r: Vitals)
        ensures
            r.hp == ONE,
            r.satiety == ONE,
            r.stamina == ONE,
    {
        Vitals { hp: ONE, satiety: ONE, stamina: ONE }
    }

    /// All three values inside the clamped range [0, 2].
    pub open spec fn in_range(self) -> bool {
        in_metabolic_range(self.hp as int) && in_metabolic_range(self.satiety as int)
            && in_metabolic_range(self.stamina as int)
    }

    /// Loose machine bound under which tick arithmetic cannot overflow.
    pub open spec fn bounded(self) -> bool {
        -VITAL_BOUND <= self.hp <= VITAL_BOUND && -VITAL_BOUND <= self.satiety <= VITAL_BOUND
            && -VITAL_BOUND <= self.stamina <= VITAL_BOUND
    }
}

/// Per-tick stamina effort cost of moving at `speed`:
/// (speed - EFFORT_FLOOR)^2 / EFFORT_DIVISOR, for speeds past the limit.
pub open spec fn effort_cost_spec(speed: int) -> int {
    (speed - EFFORT_FLOOR) * (speed - EFFORT_FLOOR) / (EFFORT_DIVISOR as int)
}

/// Satiety decay and starvation damage: satiety drops by SATIETY_DECAY; if
/// it is exhausted, health pays STARVE_DAMAGE; satiety is re-clamped into
/// [0, 2] either way. Returns (health, satiety).
pub open spec fn starve_step(hp: int, satiety: int) -> (int, int) {
    let s = satiety - SATIETY_DECAY;
    if s <= 0 {
        (hp - STARVE_DAMAGE, clamped(s))
    } else {
        (hp, clamped(s))
    }
}

/// Stamina dynamics at cached speed `speed`: slow movement recovers one
/// tick's worth; fast movement charges the effort cost, and a deficit is
/// paid from satiety while satiety is positive, else from health.
/// Returns (health, satiety, stamina).
pub open spec fn effort_step(hp: int, satiety: int, stamina: int, speed: int) -> (int, int, int) {
    if speed < RECOVER_SPEED_LIMIT {
        (hp, satiety, clamped(stamina + TICK))
    } else {
        let s = stamina - effort_cost_spec(speed);
        if s < 0 {
            if satiety > 0 {
                (hp, satiety + s, clamped(s))
            } else {
                (hp + s, satiety, clamped(s))
            }
        } else {
            (hp, satiety, clamped(s))
        }
    }
}

/// One whole metabolic tick: starvation, then effort, then the re-clamp of
/// every value into [0, 2].
pub open spec fn vitals_tick_spec(v: Vitals, speed: int) -> Vitals {
    let (hp1, sat1) = starve_step(v.hp as int, v.satiety as int);
    let (hp2, sat2, stam2) = effort_step(hp1, sat1, v.stamina as int, speed);
    Vitals { hp: clamped(hp2) as i64, satiety: clamped(sat2) as i64, stamina: clamped(stam2) as i64 }
}

/// Effort cost of moving at `speed`, exact per [`effort_cost_spec`].
pub fn effort_cost(speed: i64) -> (r: i64)
    requires
        RECOVER_SPEED_LIMIT <= speed <= SPEED_CAP,
    ensures
        r == effort_cost_spec(speed as int),
        0 <= r <= COST_CAP,
{
    let over: i64 = speed - EFFORT_FLOOR;
    let over_u: u64 = over as u64;
    assert(over_u * over_u <= 1_712_448_000u64 * 1_712_448_000u64) by (nonlinear_arith)
        requires
            0 <= over_u <= 1_712_448_000u64,
    ;
    let sq: u64 = over_u * over_u;
    let c: u64 = sq / (EFFORT_DIVISOR as u64);
    proof {
        let d = EFFORT_DIVISOR as int;
        assert(sq <= COST_CAP * d);
        vstd::arithmetic::div_mod::lemma_div_is_ordered(sq as int, COST_CAP * d, d);
        vstd::arithmetic::div_mod::lemma_div_multiples_vanish(COST_CAP as int, d);
    }
    c as i64
}

/// One metabolic tick for one agent, at the linear speed cached from the
/// previous control step. Exact per [`vitals_tick_spec`]; the result always
/// satisfies the clamp invariant.
pub fn vitals_tick(v: Vitals, speed: i64) -> (r: Vitals)
    requires
        v.bounded(),
        0 <= speed <= SPEED_CAP,
    ensures
        r == vitals_tick_spec(v, speed as int),
        r.in_range(),
{
    // starvation
    let sat_decayed: i64 = v.satiety - SATIETY_DECAY;
    let hp1: i64 = if sat_decayed <= 0 {
        v.hp - STARVE_DAMAGE
    } else {
        v.hp
    };
    let sat1: i64 = crate::units::clamp_metabolic(sat_decayed);
    // effort
    let mut hp2: i64 = hp1;
    let mut sat2: i64 = sat1;
    let stam2: i64;
    if speed < RECOVER_SPEED_LIMIT {
        stam2 = crate::units::clamp_metabolic(v.stamina + TICK);
    } else {
        let s: i64 = v.stamina - effort_cost(speed);
        if s < 0 {
            if sat2 > 0 {
                sat2 = sat2 + s;
            } else {
                hp2 = hp2 + s;
            }
        }
        stam2 = crate::units::clamp_metabolic(s);
    }
    Vitals {
        hp: crate::units::clamp_metabolic(hp2),
        satiety: crate::units::clamp_metabolic(sat2),
        stamina: stam2,
    }
}

/// Clamp invariant of the metabolic tick: whatever state a tick starts
/// from, every value it leaves behind lies in [0, 2].
pub proof fn lemma_tick_clamp_invariant(v: Vitals, speed: int)
    ensures
        vitals_tick_spec(v, speed).in_range(),
{
}

/// Exhaustion routes its deficit to satiety first: when the effort cost
/// overdraws stamina while satiety is positive, the whole shortfall is paid
/// by satiety alone, health is untouched that step, and stamina ends at 0.
pub proof fn lemma_deficit_paid_from_satiety(hp: int, satiety: int, stamina: int, speed: int)
    requires
        speed >= RECOVER_SPEED_LIMIT,
        stamina - effort_cost_spec(speed) < 0,
        satiety > 0,
    ensures
        effort_step(hp, satiety, stamina, speed).0 == hp,
        effort_step(hp, satiety, stamina, speed).1 == satiety - (effort_cost_spec(speed)
            - stamina),
        effort_step(hp, satiety, stamina, speed).2 == 0,
{
}

/// Only once satiety is exhausted does the deficit reach health.
pub proof fn lemma_deficit_paid_from_health(hp: int, satiety: int, stamina: int, speed: int)
    requires
        speed >= RECOVER_SPEED_LIMIT,
        stamina - effort_cost_spec(speed) < 0,
        satiety <= 0,
    ensures
        effort_step(hp, satiety, stamina, speed).0 == hp - (effort_cost_spec(speed) - stamina),
        effort_step(hp, satiety, stamina, speed).1 == satiety,
        effort_step(hp, satiety, stamina, speed).2 == 0,
{
}

} // verus!
