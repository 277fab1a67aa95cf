//! Saturating fixed-point arithmetic on `i64` values counting thousandths.
//!
//! A value `x` stands for the real number `x / 1000`. All operations
//! saturate at the `i64` range instead of overflowing, and division
//! truncates toward zero, as the corresponding machine operations do.

use vstd::prelude::*;

verus! {

/// Number of fixed-point units in 1.0.
pub const FX_ONE: i64 = 1000;

/// Magnitude of an integer.
pub open spec fn mag(x: int) -> int {
    if x >= 0 {
        x
    } else {
        -x
    }
}

/// Saturation to the `i64` range.
pub open spec fn sat64(x: int) -> int {
    if x > i64::MAX {
        i64::MAX as int
    } else if x < i64::MIN {
        i64::MIN as int
    } else {
        x
    }
}

/// Division truncating toward zero, for a positive divisor.
pub open spec fn tdiv(p: int, d: int) -> int
    recommends
        d > 0,
{
    if p >= 0 {
        p / d
    } else {
        -((-p) / d)
    }
}

/// Saturating addition.
pub open spec fn sat_add_spec(a: int, b: int) -> int {
    sat64(a + b)
}

/// Saturating subtraction.
pub open spec fn sat_sub_spec(a: int, b: int) -> int {
    sat64(a - b)
}

/// `a * b / d`, exact product, truncated quotient, saturated result.
pub open spec fn mul_div_spec(a: int, b: int, d: int) -> int
    recommends
        d > 0,
{
    sat64(tdiv(a * b, d))
}

/// Fixed-point product: `a * b` scaled back down by one unit.
pub open spec fn fx_mul_spec(a: int, b: int) -> int {
    mul_div_spec(a, b, FX_ONE as int)
}

/// Fixed-point quotient: `a / b` scaled up by one unit, for positive `b`.
pub open spec fn fx_div_spec(a: int, b: int) -> int
    recommends
        b > 0,
{
    mul_div_spec(a, FX_ONE as int, b)
}

/// Clamp `x` to the symmetric interval of magnitude `m`; a negative bound
/// behaves as a bound of zero.
pub open spec fn clamp_spec(x: int, m: int) -> int {
    let bound = if m >= 0 { m } else { 0 };
    if x > bound {
        bound
    } else if x < -bound {
        -bound
    } else {
        x
    }
}

pub fn sat_add(a: i64, b: i64) -> (r: i64)
    ensures
        r as int == sat_add_spec(a as int, b as int),
{
    let s: i128 = a as i128 + b as i128;
    if s > i64::MAX as i128 {
        i64::MAX
    } else if s < i64::MIN as i128 {
        i64::MIN
    } else {
        s as i64
    }
}

pub fn sat_sub(a: i64, b: i64) -> (r: i64)
    ensures
        r as int == sat_sub_spec(a as int, b as int),
{
    let s: i128 = a as i128 - b as i128;
    if s > i64::MAX as i128 {
        i64::MAX
    } else if s < i64::MIN as i128 {
        i64::MIN
    } else {
        s as i64
    }
}

/// Magnitude of an `i64`, computed without overflow at the extreme value.
fn mag_u128(x: i64) -> (r: u128)
    ensures
        r as int == mag(x as int),
{
    if x >= 0 {
        x as u128
    } else {
        (-(x as i128)) as u128
    }
}

/// The magnitude of a product is the product of the magnitudes, and the
/// product is negative exactly when the factors have opposite signs and
/// neither is zero.
proof fn lemma_mag_mul(a: int, b: int)
    ensures
        mag(a * b) == mag(a) * mag(b),
        a * b < 0 <==> ((a < 0) != (b < 0)) && a != 0 && b != 0,
{
    if a >= 0 && b >= 0 {
        assert(a * b >= 0) by (nonlinear_arith)
            requires
                a >= 0 && b >= 0,
        ;
    } else if a >= 0 && b < 0 {
        assert(a * b <= 0 && a * (-b) == -(a * b) && (a * b == 0 ==> a == 0)) by (nonlinear_arith)
            requires
                a >= 0 && b < 0,
        ;
    } else if a < 0 && b >= 0 {
        assert(a * b <= 0 && (-a) * b == -(a * b) && (a * b == 0 ==> b == 0)) by (nonlinear_arith)
            requires
                a < 0 && b >= 0,
        ;
    } else {
        assert(a * b > 0 && (-a) * (-b) == a * b) by (nonlinear_arith)
            requires
                a < 0 && b < 0,
        ;
    }
}

/// Workhorse of the fixed-point operations: exact `a * b`, truncated
/// division by `d`, saturated back into `i64`.
pub fn mul_div(a: i64, b: i64, d: i64) -> (r: i64)
    requires
        d >= 1,
    ensures
        r as int == mul_div_spec(a as int, b as int, d as int),
{
    let am: u128 = mag_u128(a);
    let bm: u128 = mag_u128(b);
    proof {
        lemma_mag_mul(a as int, b as int);
        assert(am * bm <= 0x8000_0000_0000_0000u128 * 0x8000_0000_0000_0000u128)
            by (nonlinear_arith)
            requires
                am <= 0x8000_0000_0000_0000u128 && bm <= 0x8000_0000_0000_0000u128,
        ;
    }
    let pm: u128 = am * bm;
    let q: u128 = pm / (d as u128);
    let neg: bool = (a < 0) != (b < 0);
    proof {
        let p = a as int * b as int;
        assert(q as int == mag(p) / (d as int));
        if neg {
            assert(p <= 0);
            assert(tdiv(p, d as int) == -(q as int));
        } else {
            assert(p >= 0);
            assert(tdiv(p, d as int) == q as int);
        }
    }
    if neg {
        if q >= 0x8000_0000_0000_0000u128 {
            i64::MIN
        } else {
            -(q as i64)
        }
    } else {
        if q > i64::MAX as u128 {
            i64::MAX
        } else {
            q as i64
        }
    }
}

/// Fixed-point product.
pub fn fx_mul(a: i64, b: i64) -> (r: i64)
    ensures
        r as int == fx_mul_spec(a as int, b as int),
{
    mul_div(a, b, FX_ONE)
}

/// Fixed-point quotient, for a positive divisor.
pub fn fx_div(a: i64, b: i64) -> (r: i64)
    requires
        b >= 1,
    ensures
        r as int == fx_div_spec(a as int, b as int),
{
    mul_div(a, FX_ONE, b)
}

/// Exact halving, truncating toward zero.
pub fn half(a: i64) -> (r: i64)
    ensures
        r as int == tdiv(a as int, 2),
{
    let r = mul_div(a, 1, 2);
    proof {
        assert(a as int * 1 == a as int);
        assert(sat64(tdiv(a as int, 2)) == tdiv(a as int, 2));
    }
    r
}

/// Clamp to the symmetric interval of magnitude `m`.
pub fn clamp_mag(x: i64, m: i64) -> (r: i64)
    ensures
        r as int == clamp_spec(x as int, m as int),
{
    let bound: i64 = if m >= 0 {
        m
    } else {
        0
    };
    if x > bound {
        bound
    } else if x < -bound {
        -bound
    } else {
        x
    }
}

} // verus!
