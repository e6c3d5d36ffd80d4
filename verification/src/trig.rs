//! Fixed-point sine and cosine on angles measured in turn units:
//! `FULL_TURN` units make one revolution, and results are 16.16 fixed point
//! in `[-ONE, ONE]`.
//!
//! The half wave is a parabola sharpened by one correction term; the
//! approximation is exact at every multiple of a quarter turn and stays
//! within a fraction of a percent of the real sine in between.

use vstd::prelude::*;
use crate::fixed::ONE;

verus! {

/// Angle units in one full revolution.
pub const FULL_TURN: i64 = 65536;

/// Angle units in half a revolution.
pub const HALF_TURN: i64 = 32768;

/// Angle units in a quarter revolution.
pub const QUARTER_TURN: i64 = 16384;

/// Weight of the plain parabola term in the sharpened half wave.
pub const SIN_BASE_WEIGHT: i64 = 50790;

/// Weight of the correction term in the sharpened half wave.
pub const SIN_CORRECTION_WEIGHT: i64 = 14746;

/// The sharpened parabola on the first half wave, `x` in `[0, HALF_TURN]`.
pub open spec fn half_sin_spec(x: int) -> int {
    let p = (4 * x * (HALF_TURN - x)) / (QUARTER_TURN as int);
    (p * (SIN_BASE_WEIGHT + (SIN_CORRECTION_WEIGHT * p) / (ONE as int))) / (ONE as int)
}

/// Sine of an angle in `[0, FULL_TURN)`, by odd extension of the half wave.
pub open spec fn sin_spec(x: int) -> int {
    if x < HALF_TURN {
        half_sin_spec(x)
    } else {
        -half_sin_spec(x - HALF_TURN)
    }
}

/// Cosine of an angle in `[0, FULL_TURN)`: the sine a quarter turn ahead.
pub open spec fn cos_spec(x: int) -> int {
    if x < 3 * (QUARTER_TURN as int) {
        sin_spec(x + QUARTER_TURN)
    } else {
        sin_spec(x - 3 * (QUARTER_TURN as int))
    }
}

/// Sine of a signed angle in `(-FULL_TURN, FULL_TURN)`, by odd symmetry.
pub open spec fn sin_signed_spec(x: int) -> int {
    if x >= 0 { sin_spec(x) } else { -sin_spec(-x) }
}

/// Cosine of a signed angle in `(-FULL_TURN, FULL_TURN)`, by even symmetry.
pub open spec fn cos_signed_spec(x: int) -> int {
    if x >= 0 { cos_spec(x) } else { cos_spec(-x) }
}

/// The half wave stays within `[0, ONE]`.
pub proof fn lemma_half_sin_bounds(x: int)
    requires
        0 <= x <= HALF_TURN as int,
    ensures
        0 <= half_sin_spec(x) <= ONE as int,
{
    let p = (4 * x * (HALF_TURN - x)) / (QUARTER_TURN as int);
    assert(0 <= 4 * x * (HALF_TURN - x) <= 0x4000_0000) by (nonlinear_arith)
        requires 0 <= x <= 32768;
    vstd::arithmetic::div_mod::lemma_div_pos_is_pos(4 * x * (HALF_TURN - x), QUARTER_TURN as int);
    vstd::arithmetic::div_mod::lemma_div_is_ordered(
        4 * x * (HALF_TURN - x), 0x4000_0000, QUARTER_TURN as int);
    assert(0 <= p <= 65536);
    let c = (SIN_CORRECTION_WEIGHT * p) / (ONE as int);
    assert(0 <= SIN_CORRECTION_WEIGHT * p <= 14746 * 65536) by (nonlinear_arith)
        requires 0 <= p <= 65536;
    vstd::arithmetic::div_mod::lemma_div_pos_is_pos(SIN_CORRECTION_WEIGHT * p, ONE as int);
    vstd::arithmetic::div_mod::lemma_div_is_ordered(
        SIN_CORRECTION_WEIGHT * p, 14746int * 65536, ONE as int);
    assert(0 <= c <= 14746);
    let w = SIN_BASE_WEIGHT + c;
    assert(0 <= p * w <= 65536 * 65536) by (nonlinear_arith)
        requires 0 <= p <= 65536, 0 <= w <= 65536;
    vstd::arithmetic::div_mod::lemma_div_pos_is_pos(p * w, ONE as int);
    vstd::arithmetic::div_mod::lemma_div_is_ordered(p * w, 65536int * 65536, ONE as int);
}

/// Sine stays within `[-ONE, ONE]` over a full turn.
pub proof fn lemma_sin_bounds(x: int)
    requires
        0 <= x < FULL_TURN as int,
    ensures
        -(ONE as int) <= sin_spec(x) <= ONE as int,
{
    if x < HALF_TURN {
        lemma_half_sin_bounds(x);
    } else {
        lemma_half_sin_bounds(x - HALF_TURN);
    }
}

/// Cosine stays within `[-ONE, ONE]` over a full turn.
pub proof fn lemma_cos_bounds(x: int)
    requires
        0 <= x < FULL_TURN as int,
    ensures
        -(ONE as int) <= cos_spec(x) <= ONE as int,
{
    if x < 3 * (QUARTER_TURN as int) {
        lemma_sin_bounds(x + QUARTER_TURN);
    } else {
        lemma_sin_bounds(x - 3 * (QUARTER_TURN as int));
    }
}

/// The approximation is exact at the four cardinal angles.
pub proof fn lemma_sin_cardinal()
    ensures
        sin_spec(0) == 0,
        sin_spec(QUARTER_TURN as int) == ONE as int,
        sin_spec(HALF_TURN as int) == 0,
        sin_spec(3 * (QUARTER_TURN as int)) == -(ONE as int),
{
    vstd::arithmetic::div_mod::lemma_div_of0(QUARTER_TURN as int);
    vstd::arithmetic::div_mod::lemma_div_of0(ONE as int);
    assert(4 * 0int * (HALF_TURN - 0int) == 0) by (nonlinear_arith);
    assert((4 * 0int * (HALF_TURN - 0int)) / (QUARTER_TURN as int) == 0);
    assert(SIN_CORRECTION_WEIGHT * 0int == 0) by (nonlinear_arith);
    assert(0int * (SIN_BASE_WEIGHT + (SIN_CORRECTION_WEIGHT * 0int) / (ONE as int)) == 0)
        by (nonlinear_arith);
    assert(half_sin_spec(0) == 0);
    assert(half_sin_spec(QUARTER_TURN as int) == ONE as int) by {
        vstd::arithmetic::div_mod::lemma_div_multiples_vanish(65536, 16384);
        assert((4 * (QUARTER_TURN as int) * (HALF_TURN - QUARTER_TURN as int))
            / (QUARTER_TURN as int) == 65536);
        vstd::arithmetic::div_mod::lemma_div_multiples_vanish(14746, 65536);
        vstd::arithmetic::div_mod::lemma_div_multiples_vanish(65536, 65536);
    }
}

/// The sharpened parabola on the first half wave.
fn half_sin(x: i64) -> (r: i64)
    requires
        0 <= x <= HALF_TURN,
    ensures
        r == half_sin_spec(x as int),
        0 <= r <= ONE,
{
    let xu: u64 = x as u64;
    proof {
        assert(0 <= 4 * (xu as int) * (32768 - xu as int) <= 0x4000_0000) by (nonlinear_arith)
            requires 0 <= xu <= 32768;
    }
    let p: u64 = 4 * xu * (32768 - xu) / 16384;
    proof {
        vstd::arithmetic::div_mod::lemma_div_is_ordered(
            4 * (xu as int) * (32768 - xu as int), 0x4000_0000, 16384);
        vstd::arithmetic::div_mod::lemma_div_pos_is_pos(
            4 * (xu as int) * (32768 - xu as int), 16384);
    }
    let c: u64 = (14746 * p) / 65536;
    proof {
        vstd::arithmetic::div_mod::lemma_div_is_ordered(
            14746 * (p as int), 14746int * 65536, 65536);
        vstd::arithmetic::div_mod::lemma_div_pos_is_pos(14746 * (p as int), 65536);
    }
    proof {
        assert((p as int) * (50790 + c as int) <= 65536 * 65536) by (nonlinear_arith)
            requires 0 <= p <= 65536, 0 <= c <= 14746;
    }
    let s: u64 = (p * (50790 + c)) / 65536;
    proof {
        vstd::arithmetic::div_mod::lemma_div_is_ordered(
            (p as int) * (50790 + c as int), 65536int * 65536, 65536);
        vstd::arithmetic::div_mod::lemma_div_pos_is_pos(
            (p as int) * (50790 + c as int), 65536);
    }
    s as i64
}

/// Sine of an angle in `[0, FULL_TURN)` turn units, 16.16 fixed point.
pub fn fx_sin(x: i64) -> (r: i64)
    requires
        0 <= x < FULL_TURN,
    ensures
        r == sin_spec(x as int),
        -ONE <= r <= ONE,
{
    if x < HALF_TURN {
        half_sin(x)
    } else {
        -half_sin(x - HALF_TURN)
    }
}

/// Cosine of an angle in `[0, FULL_TURN)` turn units, 16.16 fixed point.
pub fn fx_cos(x: i64) -> (r: i64)
    requires
        0 <= x < FULL_TURN,
    ensures
        r == cos_spec(x as int),
        -ONE <= r <= ONE,
{
    if x < 3 * QUARTER_TURN {
        fx_sin(x + QUARTER_TURN)
    } else {
        fx_sin(x - 3 * QUARTER_TURN)
    }
}

/// Sine of a signed angle in `(-FULL_TURN, FULL_TURN)` turn units.
pub fn fx_sin_signed(x: i64) -> (r: i64)
    requires
        -FULL_TURN < x < FULL_TURN,
    ensures
        r == sin_signed_spec(x as int),
        -ONE <= r <= ONE,
{
    if x >= 0 {
        fx_sin(x)
    } else {
        -fx_sin(-x)
    }
}

/// Cosine of a signed angle in `(-FULL_TURN, FULL_TURN)` turn units.
pub fn fx_cos_signed(x: i64) -> (r: i64)
    requires
        -FULL_TURN < x < FULL_TURN,
    ensures
        r == cos_signed_spec(x as int),
        -ONE <= r <= ONE,
{
    if x >= 0 {
        fx_cos(x)
    } else {
        fx_cos(-x)
    }
}

} // verus!
