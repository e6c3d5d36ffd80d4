//! 16.16 fixed-point scalars: an `i64` holds a quantity scaled by `ONE`.

use vstd::prelude::*;

verus! {

/// The fixed-point scale: the representation of the real number 1.
pub const ONE: i64 = 65536;

/// Magnitude of a fixed-point value, as a mathematical integer.
pub open spec fn fx_abs(a: int) -> int {
    if a >= 0 { a } else { -a }
}

/// The fixed-point product: the mathematical product rescaled by `ONE`,
/// truncated toward zero.
pub open spec fn fx_mul_spec(a: int, b: int) -> int {
    let p = a * b;
    if p >= 0 { p / (ONE as int) } else { -((-p) / (ONE as int)) }
}

/// The fixed-point quotient `a / b`: the mathematical quotient rescaled by
/// `ONE`, truncated toward zero.
pub open spec fn fx_div_spec(a: int, b: int) -> int {
    if a >= 0 { (a * (ONE as int)) / b } else { -((-a * (ONE as int)) / b) }
}

/// Clamping to a closed interval.
pub open spec fn clamp_spec(v: int, lo: int, hi: int) -> int {
    if v < lo { lo } else if v > hi { hi } else { v }
}

/// A product of magnitudes bounds the magnitude of the rescaled product.
pub proof fn lemma_fx_mul_bound(a: int, b: int, aa: int, bb: int)
    requires
        0 <= aa,
        0 <= bb,
        fx_abs(a) <= aa,
        fx_abs(b) <= bb,
    ensures
        fx_abs(fx_mul_spec(a, b)) <= (aa * bb) / (ONE as int),
        -((aa * bb) / (ONE as int)) <= fx_mul_spec(a, b) <= (aa * bb) / (ONE as int),
{
    let p = a * b;
    assert(-(aa * bb) <= a * b <= aa * bb) by (nonlinear_arith)
        requires -aa <= a <= aa, -bb <= b <= bb, 0 <= aa, 0 <= bb;
    if p >= 0 {
        vstd::arithmetic::div_mod::lemma_div_is_ordered(p, aa * bb, ONE as int);
        vstd::arithmetic::div_mod::lemma_div_pos_is_pos(p, ONE as int);
    } else {
        vstd::arithmetic::div_mod::lemma_div_is_ordered(-p, aa * bb, ONE as int);
        vstd::arithmetic::div_mod::lemma_div_pos_is_pos(-p, ONE as int);
    }
}

/// A divisor of at least `ONE` cannot grow the magnitude of a fixed-point
/// quotient beyond the magnitude of the dividend.
pub proof fn lemma_fx_div_bound(a: int, b: int, aa: int)
    requires
        0 <= aa,
        fx_abs(a) <= aa,
        b >= ONE as int,
    ensures
        -aa <= fx_div_spec(a, b) <= aa,
{
    if a >= 0 {
        vstd::arithmetic::div_mod::lemma_div_pos_is_pos(a * (ONE as int), b);
        assert((a * (ONE as int)) / b <= aa) by {
            vstd::arithmetic::div_mod::lemma_div_is_ordered_by_denominator(
                a * (ONE as int), ONE as int, b);
            vstd::arithmetic::div_mod::lemma_div_multiples_vanish(a, ONE as int);
            vstd::arithmetic::div_mod::lemma_div_is_ordered(
                a * (ONE as int), aa * (ONE as int), b);
        }
    } else {
        vstd::arithmetic::div_mod::lemma_div_pos_is_pos(-a * (ONE as int), b);
        assert((-a * (ONE as int)) / b <= aa) by {
            vstd::arithmetic::div_mod::lemma_div_is_ordered_by_denominator(
                -a * (ONE as int), ONE as int, b);
            vstd::arithmetic::div_mod::lemma_div_multiples_vanish(-a, ONE as int);
        }
    }
}

/// The fixed-point product does not depend on the order of its factors.
pub proof fn lemma_fx_mul_comm(a: int, b: int)
    ensures
        fx_mul_spec(a, b) == fx_mul_spec(b, a),
{
    assert(a * b == b * a) by (nonlinear_arith);
}

/// Negating one factor negates the fixed-point product, exactly: the
/// truncation is symmetric around zero.
pub proof fn lemma_fx_mul_neg(a: int, b: int)
    ensures
        fx_mul_spec(a, -b) == -fx_mul_spec(a, b),
{
    assert(a * (-b) == -(a * b)) by (nonlinear_arith);
    if a * b == 0 {
        vstd::arithmetic::div_mod::lemma_div_of0(ONE as int);
    }
}

/// Multiplying by zero yields zero.
pub proof fn lemma_fx_mul_zero(a: int)
    ensures
        fx_mul_spec(a, 0) == 0,
{
    assert(a * 0 == 0) by (nonlinear_arith);
}

/// Fixed-point multiplication. The result is the mathematical product
/// rescaled by `ONE` and truncated toward zero.
pub fn fx_mul(a: i64, b: i64) -> (r: i64)
    requires
        -0x8000_0000 <= a <= 0x8000_0000,
        -0x8000_0000 <= b <= 0x8000_0000,
    ensures
        r == fx_mul_spec(a as int, b as int),
        -0x4000_0000_0000 <= r <= 0x4000_0000_0000,
{
    let neg: bool = (a < 0) != (b < 0);
    let am: u64 = if a < 0 { (-a) as u64 } else { a as u64 };
    let bm: u64 = if b < 0 { (-b) as u64 } else { b as u64 };
    proof {
        assert(am * bm <= 0x8000_0000 * 0x8000_0000) by (nonlinear_arith)
            requires am <= 0x8000_0000, bm <= 0x8000_0000;
    }
    let p: u64 = am * bm;
    let q: u64 = p / 65536;
    proof {
        vstd::arithmetic::div_mod::lemma_div_is_ordered(
            p as int, 0x4000_0000_0000_0000, 65536);
        vstd::arithmetic::div_mod::lemma_div_pos_is_pos(p as int, 65536);
        if neg {
            assert((a as int) * (b as int) == -((am as int) * (bm as int))
                && (a as int) * (b as int) <= 0) by (nonlinear_arith)
                requires
                    am == (if a < 0 { -(a as int) } else { a as int }),
                    bm == (if b < 0 { -(b as int) } else { b as int }),
                    (a < 0) != (b < 0);
        } else {
            assert((a as int) * (b as int) == (am as int) * (bm as int)
                && (a as int) * (b as int) >= 0) by (nonlinear_arith)
                requires
                    am == (if a < 0 { -(a as int) } else { a as int }),
                    bm == (if b < 0 { -(b as int) } else { b as int }),
                    !((a < 0) != (b < 0));
        }
    }
    if neg {
        -(q as i64)
    } else {
        q as i64
    }
}

/// Fixed-point division. The result is the mathematical quotient rescaled by
/// `ONE` and truncated toward zero. The divisor must be positive.
pub fn fx_div(a: i64, b: i64) -> (r: i64)
    requires
        -0x4000_0000_0000 <= a <= 0x4000_0000_0000,
        1 <= b,
    ensures
        r == fx_div_spec(a as int, b as int),
{
    let am: u64 = if a < 0 { (-a) as u64 } else { a as u64 };
    let n: u64 = am * 65536;
    let q: u64 = n / (b as u64);
    proof {
        vstd::arithmetic::div_mod::lemma_div_is_ordered_by_denominator(n as int, 1, b as int);
        vstd::arithmetic::div_mod::lemma_div_pos_is_pos(n as int, b as int);
        assert(n as int == fx_abs(a as int) * (ONE as int));
        if a < 0 {
            assert(-(a as int) * (ONE as int) == fx_abs(a as int) * (ONE as int))
                by (nonlinear_arith)
                requires a < 0;
        }
    }
    if a < 0 {
        -(q as i64)
    } else {
        q as i64
    }
}

/// Clamp a value to the closed interval `[lo, hi]`.
pub fn clamp(v: i64, lo: i64, hi: i64) -> (r: i64)
    requires
        lo <= hi,
    ensures
        r == clamp_spec(v as int, lo as int, hi as int),
{
    if v < lo {
        lo
    } else if v > hi {
        hi
    } else {
        v
    }
}

} // verus!
