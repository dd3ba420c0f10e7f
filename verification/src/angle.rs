//! Angles as fixed-point turns.
//!
//! A full turn is [`TURN`] units, so [`HALF_TURN`] stands for pi radians.
//! Bearings are always folded into the half-open interval (-pi, pi]; the
//! boundary itself maps to +pi, never to -pi.

use vstd::prelude::*;

verus! {

/// One full turn (2*pi radians) in angle units.
pub const TURN: i64 = 2_097_152;

/// Half a turn: pi radians.
pub const HALF_TURN: i64 = 1_048_576;

/// A quarter turn: pi/2 radians.
pub const QUARTER_TURN: i64 = 524_288;

/// An angle in canonical form: inside (-pi, pi].
pub open spec fn is_folded(a: int) -> bool {
    -HALF_TURN < a <= HALF_TURN
}

/// Two angles that differ by whole turns describe the same direction.
pub open spec fn same_direction(a: int, b: int) -> bool {
    (a - b) % (TURN as int) == 0
}

/// The canonical form of an angle already within one turn of the interval.
pub open spec fn fold_spec(a: int) -> int {
    if a > HALF_TURN {
        a - TURN
    } else if a <= -HALF_TURN {
        a + TURN
    } else {
        a
    }
}

/// The bearing of an absolute direction `dir` relative to a forward axis
/// `forward`: their difference, folded into (-pi, pi].
pub open spec fn bearing_spec(forward: int, dir: int) -> int {
    fold_spec(dir - forward)
}

/// Fold an angle within [-TURN, TURN] into the canonical interval (-pi, pi].
pub fn fold_angle(a: i64) -> (r: i64)
    requires
        -TURN <= a <= TURN,
    ensures
        r == fold_spec(a as int),
        is_folded(r as int),
        same_direction(r as int, a as int),
{
    proof {
        lemma_fold_same_direction(a as int);
    }
    if a > HALF_TURN {
        a - TURN
    } else if a <= -HALF_TURN {
        a + TURN
    } else {
        a
    }
}

/// Relative bearing of direction `dir` against forward axis `forward`,
/// both given in canonical form; the result is canonical as well.
pub fn bearing(forward: i64, dir: i64) -> (r: i64)
    requires
        is_folded(forward as int),
        is_folded(dir as int),
    ensures
        r == bearing_spec(forward as int, dir as int),
        is_folded(r as int),
        same_direction(r as int, dir - forward),
{
    fold_angle(dir - forward)
}

/// Folding keeps the direction: the result differs by a whole turn at most.
pub proof fn lemma_fold_same_direction(a: int)
    requires
        -TURN <= a <= TURN,
    ensures
        is_folded(fold_spec(a)),
        same_direction(fold_spec(a), a),
{
    let t = TURN as int;
    if a > HALF_TURN {
        vstd::arithmetic::div_mod::lemma_mod_multiples_basic(-1, t);
        assert(a - t - a == (-1) * t);
    } else if a <= -HALF_TURN {
        vstd::arithmetic::div_mod::lemma_mod_multiples_basic(1, t);
        assert(a + t - a == 1 * t);
    } else {
        vstd::arithmetic::div_mod::lemma_mod_multiples_basic(0, t);
        assert(a - a == 0 * t);
    }
}

/// Inside the canonical interval, every direction has exactly one form:
/// two folded angles of the same direction are equal.
pub proof fn lemma_folded_unique(a: int, b: int)
    requires
        is_folded(a),
        is_folded(b),
        same_direction(a, b),
    ensures
        a == b,
{
    let t = TURN as int;
    let d = a - b;
    assert(-t < d < t);
    if 0 <= d {
        vstd::arithmetic::div_mod::lemma_small_mod(d as nat, t as nat);
    } else {
        vstd::arithmetic::div_mod::lemma_mod_add_multiples_vanish(d, t);
        vstd::arithmetic::div_mod::lemma_small_mod((d + t) as nat, t as nat);
        assert(d % t == d + t);
    }
}

/// Bearings are rotation-consistent: turning the agent and the target
/// direction by one common rotation leaves the bearing unchanged.
pub proof fn lemma_bearing_rotation_consistent(forward: int, dir: int, rot: int)
    requires
        is_folded(forward),
        is_folded(dir),
        -HALF_TURN <= rot <= HALF_TURN,
    ensures
        bearing_spec(fold_spec(forward + rot), fold_spec(dir + rot)) == bearing_spec(
            forward,
            dir,
        ),
{
    let t = TURN as int;
    let f2 = fold_spec(forward + rot);
    let d2 = fold_spec(dir + rot);
    lemma_fold_same_direction(forward + rot);
    lemma_fold_same_direction(dir + rot);
    let r1 = bearing_spec(forward, dir);
    let r2 = bearing_spec(f2, d2);
    lemma_fold_same_direction(dir - forward);
    lemma_fold_same_direction(d2 - f2);
    // both results are canonical and describe the same direction
    assert(same_direction(d2, dir + rot));
    assert(same_direction(f2, forward + rot));
    assert(same_direction(r2, d2 - f2));
    assert(same_direction(r1, dir - forward));
    lemma_same_direction_additive(d2, dir + rot, f2, forward + rot);
    lemma_same_direction_trans(r2, d2 - f2, dir - forward);
    lemma_same_direction_trans_rev(r1, r2, dir - forward);
    lemma_folded_unique(r1, r2);
}

/// Whole-turn differences add: if a1 ~ b1 and a2 ~ b2 then a1-a2 ~ b1-b2.
pub proof fn lemma_same_direction_additive(a1: int, b1: int, a2: int, b2: int)
    requires
        same_direction(a1, b1),
        same_direction(a2, b2),
    ensures
        same_direction(a1 - a2, b1 - b2),
{
    let t = TURN as int;
    vstd::arithmetic::div_mod::lemma_fundamental_div_mod(a1 - b1, t);
    vstd::arithmetic::div_mod::lemma_fundamental_div_mod(a2 - b2, t);
    let k1 = (a1 - b1) / t;
    let k2 = (a2 - b2) / t;
    assert(a1 - a2 - (b1 - b2) == (k1 - k2) * t) by {
        assert(k1 * t - k2 * t == (k1 - k2) * t) by (nonlinear_arith);
    }
    vstd::arithmetic::div_mod::lemma_mod_multiples_basic(k1 - k2, t);
}

/// Whole-turn equivalence is transitive.
pub proof fn lemma_same_direction_trans(a: int, b: int, c: int)
    requires
        same_direction(a, b),
        same_direction(b, c),
    ensures
        same_direction(a, c),
{
    lemma_same_direction_additive(a, b, -(b as int), -(c as int));
    assert(a - -b == a + b);
}

/// Whole-turn equivalence lets a shared reference be replaced.
pub proof fn lemma_same_direction_trans_rev(a: int, b: int, c: int)
    requires
        same_direction(a, c),
        same_direction(b, c),
    ensures
        same_direction(a, b),
{
    lemma_same_direction_additive(a, c, b, c);
    assert(a - b - (c - c) == a - b);
}

} // verus!
