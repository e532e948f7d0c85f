//! Fixed-point scalars.
//!
//! Every physical quantity of the simulation (velocity, pressure, level set,
//! time step, cell size, density, coordinates) is a signed fixed-point number
//! with sixteen fractional bits, stored in an `i64`.  The stored integer is
//! called the raw value; the quantity it stands for is `raw / 65536`.
//!
//! All operations are total.  A result that does not fit in an `i64` is
//! replaced by the nearest representable value, and every division rounds
//! toward zero.  The contracts state each result as an expression over
//! mathematical integers, so that the rounding and the saturation are part of
//! what is proved.
use vstd::prelude::*;

verus! {

/// Raw value of the number one.
pub const ONE: i64 = 65536;

/// Raw value of one half.
pub const HALF: i64 = 32768;

/// The nearest `i64` to `x`.
pub open spec fn sat(x: int) -> int {
    if x < i64::MIN as int {
        i64::MIN as int
    } else if x > i64::MAX as int {
        i64::MAX as int
    } else {
        x
    }
}

/// Quotient of `a` by a positive `d`, rounded toward zero.
pub open spec fn trunc_div(a: int, d: int) -> int
    recommends
        d > 0,
{
    if a >= 0 {
        a / d
    } else {
        -((-a) / d)
    }
}

/// Sum of two scalars.
pub open spec fn fx_add_spec(a: int, b: int) -> int {
    sat(a + b)
}

/// Difference of two scalars.
pub open spec fn fx_sub_spec(a: int, b: int) -> int {
    sat(a - b)
}

/// Product of two scalars.
pub open spec fn fx_mul_spec(a: int, b: int) -> int {
    sat(trunc_div(a * b, ONE as int))
}

/// Quotient of a scalar by a positive scalar.
pub open spec fn fx_div_spec(a: int, b: int) -> int
    recommends
        b > 0,
{
    sat(trunc_div(a * (ONE as int), b))
}

/// The point at fraction `t` of the way from `a` to `b`.
pub open spec fn lerp_spec(a: int, b: int, t: int) -> int
    recommends
        0 <= t <= ONE,
{
    sat(a + trunc_div((b - a) * t, ONE as int))
}

/// Raw value of the whole number `n`.
pub open spec fn from_int_spec(n: int) -> int {
    sat(n * (ONE as int))
}

/// `x` limited to the interval from `lo` to `hi`.
pub open spec fn clamp_spec(x: int, lo: int, hi: int) -> int
    recommends
        lo <= hi,
{
    if x < lo {
        lo
    } else if x > hi {
        hi
    } else {
        x
    }
}

/// Magnitude of `x`.
pub open spec fn abs_spec(x: int) -> int {
    if x < 0 {
        -x
    } else {
        x
    }
}

/// The largest integer whose square does not exceed `x`.
pub open spec fn is_sqrt_of(r: int, x: int) -> bool {
    &&& 0 <= r
    &&& r * r <= x
    &&& x < (r + 1) * (r + 1)
}

/// The integer square root of `x`.
pub open spec fn isqrt_spec(x: int) -> int {
    choose|r: int| is_sqrt_of(r, x)
}

/// A number has at most one integer square root.
pub proof fn lemma_sqrt_unique(r: int, s: int, x: int)
    by (nonlinear_arith)
    requires
        is_sqrt_of(r, x),
        is_sqrt_of(s, x),
    ensures
        r == s,
{
}

/// A product is bounded by the product of the bounds of its factors.
pub proof fn lemma_product_bound(a: int, b: int, m: int, k: int)
    by (nonlinear_arith)
    requires
        -m <= a <= m,
        -k <= b <= k,
    ensures
        -(m * k) <= a * b <= m * k,
{
}

/// Rounding toward zero never moves a quotient away from zero, and keeps it
/// within the magnitude of the numerator.
pub proof fn lemma_trunc_div_bounds(a: int, d: int)
    by (nonlinear_arith)
    requires
        d > 0,
    ensures
        a >= 0 ==> 0 <= trunc_div(a, d) <= a,
        a <= 0 ==> a <= trunc_div(a, d) <= 0,
        d * trunc_div(a, d) + (a - d * trunc_div(a, d)) == a,
        a >= 0 ==> 0 <= a - d * trunc_div(a, d) < d,
        a <= 0 ==> -d < a - d * trunc_div(a, d) <= 0,
{
}

/// Converts a wide integer to the nearest scalar.
pub fn saturate(x: i128) -> (r: i64)
    ensures
        r as int == sat(x as int),
{
    if x < i64::MIN as i128 {
        i64::MIN
    } else if x > i64::MAX as i128 {
        i64::MAX
    } else {
        x as i64
    }
}

/// Converts a whole number to a scalar.
pub fn from_int(n: i64) -> (r: i64)
    ensures
        r as int == from_int_spec(n as int),
{
    proof {
        lemma_product_bound(n as int, ONE as int, 0x8000_0000_0000_0000, 65536);
    }
    saturate((n as i128) * (ONE as i128))
}

/// Saturating sum.
pub fn fx_add(a: i64, b: i64) -> (r: i64)
    ensures
        r as int == fx_add_spec(a as int, b as int),
{
    saturate((a as i128) + (b as i128))
}

/// Saturating difference.
pub fn fx_sub(a: i64, b: i64) -> (r: i64)
    ensures
        r as int == fx_sub_spec(a as int, b as int),
{
    saturate((a as i128) - (b as i128))
}

/// Saturating product, rounded toward zero.
pub fn fx_mul(a: i64, b: i64) -> (r: i64)
    ensures
        r as int == fx_mul_spec(a as int, b as int),
{
    proof {
        lemma_product_bound(a as int, b as int, 0x8000_0000_0000_0000, 0x8000_0000_0000_0000);
    }
    let wide: i128 = (a as i128) * (b as i128);
    saturate(wide / (ONE as i128))
}

/// Saturating quotient by a positive scalar, rounded toward zero.
pub fn fx_div(a: i64, b: i64) -> (r: i64)
    requires
        b > 0,
    ensures
        r as int == fx_div_spec(a as int, b as int),
{
    proof {
        lemma_product_bound(a as int, ONE as int, 0x8000_0000_0000_0000, 65536);
    }
    let wide: i128 = (a as i128) * (ONE as i128);
    saturate(wide / (b as i128))
}

/// Linear interpolation between `a` and `b` at the fraction `t`.
pub fn lerp(a: i64, b: i64, t: i64) -> (r: i64)
    requires
        0 <= t <= ONE,
    ensures
        r as int == lerp_spec(a as int, b as int, t as int),
{
    let span: i128 = (b as i128) - (a as i128);
    proof {
        lemma_product_bound(span as int, t as int, 0x1_0000_0000_0000_0000, 65536);
    }
    let scaled: i128 = (span * (t as i128)) / (ONE as i128);
    proof {
        lemma_trunc_div_bounds(span * t, ONE as int);
    }
    saturate((a as i128) + scaled)
}

/// Limits `x` to the interval from `lo` to `hi`.
pub fn clamp(x: i64, lo: i64, hi: i64) -> (r: i64)
    requires
        lo <= hi,
    ensures
        r as int == clamp_spec(x as int, lo as int, hi as int),
{
    if x < lo {
        lo
    } else if x > hi {
        hi
    } else {
        x
    }
}

/// Integer square root: the largest `r` with `r * r <= x`.
pub fn isqrt(x: u128) -> (r: u64)
    ensures
        is_sqrt_of(r as int, x as int),
        r as int == isqrt_spec(x as int),
{
    let mut lo: u128 = 0;
    let mut hi: u128 = 0x1_0000_0000_0000_0000u128;
    proof {
        assert(hi * hi > x) by (nonlinear_arith)
            requires
                hi == 0x1_0000_0000_0000_0000u128,
                x <= u128::MAX,
        ;
    }
    while hi - lo > 1
        invariant
            lo < hi <= 0x1_0000_0000_0000_0000u128,
            lo * lo <= x,
            x < hi * hi,
        decreases hi - lo,
    {
        let mid: u128 = lo + (hi - lo) / 2;
        assert(mid * mid <= u128::MAX) by (nonlinear_arith)
            requires
                0 <= mid < 0x1_0000_0000_0000_0000u128,
        ;
        if mid * mid <= x {
            lo = mid;
        } else {
            hi = mid;
        }
    }
    proof {
        lemma_sqrt_unique(lo as int, isqrt_spec(x as int), x as int);
    }
    lo as u64
}

} // verus!
