//! Fixed-point numbers with sixteen fractional bits.
//!
//! A [`Fixed`] stands for `raw / 65536`. Products are rounded toward zero, so that
//! scaling `-x` always gives the negation of scaling `x`.

use vstd::prelude::*;

verus! {

/// The raw value that stands for the number one.
pub const ONE_RAW: i32 = 65536;

/// A signed fixed-point number: `raw` sixty-five-thousand-five-hundred-thirty-sixths.
#[derive(Clone, Copy, Debug, PartialEq, Eq, Structural)]
pub struct Fixed {
    pub raw: i32,
}

/// Quotient of `n` by a positive `d`, rounded toward zero.
pub open spec fn trunc_div(n: int, d: int) -> int {
    if n >= 0 {
        n / d
    } else {
        -((-n) / d)
    }
}

/// `value` multiplied by the number that `factor` stands for, rounded toward zero.
pub open spec fn scaled(value: int, factor: Fixed) -> int {
    trunc_div(value * factor.raw, ONE_RAW as int)
}

/// `x` limited to the interval from `lo` to `hi`.
pub open spec fn clamp(x: int, lo: int, hi: int) -> int {
    if x < lo {
        lo
    } else if x > hi {
        hi
    } else {
        x
    }
}

/// The larger of `x` and zero.
pub open spec fn positive_part(x: int) -> int {
    if x > 0 {
        x
    } else {
        0
    }
}

/// Rounding toward zero commutes with negation.
pub proof fn lemma_trunc_div_odd(n: int, d: int)
    requires
        d > 0,
    ensures
        trunc_div(-n, d) == -trunc_div(n, d),
{
    if n == 0 {
        assert(0int / d == 0) by (nonlinear_arith)
            requires
                d > 0,
        ;
    }
}

/// The rounded quotient lies within one of the exact quotient, on the side of zero.
pub proof fn lemma_trunc_div_bounds(n: int, d: int)
    requires
        d > 0,
    ensures
        n >= 0 ==> 0 <= trunc_div(n, d) * d <= n < (trunc_div(n, d) + 1) * d,
        n <= 0 ==> 0 >= trunc_div(n, d) * d >= n > (trunc_div(n, d) - 1) * d,
{
    let m = if n >= 0 { n } else { -n };
    assert(0 <= (m / d) * d <= m < (m / d + 1) * d) by (nonlinear_arith)
        requires
            d > 0,
            m >= 0,
    ;
    if n == 0 {
        assert(0int / d == 0) by (nonlinear_arith)
            requires
                d > 0,
        ;
    } else if n < 0 {
        assert((-(m / d)) * d == -((m / d) * d)) by (nonlinear_arith);
        assert((-(m / d) - 1) * d == -((m / d + 1) * d)) by (nonlinear_arith);
    }
}

/// Scaling by the negated value negates the result.
pub proof fn lemma_scaled_odd(value: int, factor: Fixed)
    ensures
        scaled(-value, factor) == -scaled(value, factor),
{
    assert((-value) * factor.raw == -(value * factor.raw)) by (nonlinear_arith);
    lemma_trunc_div_odd(value * factor.raw, ONE_RAW as int);
}

/// The magnitude of a scaled value is bounded by the product of the magnitudes,
/// shifted down by the sixteen fractional bits.
pub proof fn lemma_scaled_bound(value: int, factor: Fixed, bound: int)
    requires
        -bound <= value <= bound,
    ensures
        -bound * 32768 <= scaled(value, factor) <= bound * 32768,
{
    let p = value * factor.raw;
    assert(-bound * 2147483648 <= p <= bound * 2147483648) by (nonlinear_arith)
        requires
            p == value * factor.raw,
            -bound <= value <= bound,
            -2147483648 <= factor.raw <= 2147483647,
    ;
    lemma_trunc_div_bounds(p, 65536);
}

impl Fixed {
    /// The number zero.
    pub fn zero() -> (r: Fixed)
        ensures
            r.raw == 0,
    {
        Fixed { raw: 0 }
    }

    /// The number one.
    pub fn one() -> (r: Fixed)
        ensures
            r.raw == ONE_RAW,
    {
        Fixed { raw: ONE_RAW }
    }

    /// The fixed-point number with the given raw value.
    pub fn from_raw(raw: i32) -> (r: Fixed)
        ensures
            r.raw == raw,
    {
        Fixed { raw }
    }

    /// The whole number `n`.
    pub fn from_int(n: i16) -> (r: Fixed)
        ensures
            r.raw == n * 65536,
    {
        let wide: i32 = n as i32;
        Fixed { raw: wide * 65536 }
    }

    /// Multiplies `value` by this number, rounding toward zero.
    pub fn scale(self, value: i64) -> (r: i128)
        ensures
            r == scaled(value as int, self),
    {
        scale_wide(value as i128, self)
    }
}

/// Multiplies a wide `value` by `factor`, rounding toward zero.
pub(crate) fn scale_wide(value: i128, factor: Fixed) -> (r: i128)
    requires
        -0x1000_0000_0000_0000_0000_0000 <= value <= 0x1000_0000_0000_0000_0000_0000,
    ensures
        r == scaled(value as int, factor),
{
    let f: i128 = factor.raw as i128;
    assert(-0x8000_0000_0000_0000_0000_0000_0000_0000 < value * f
        < 0x7fff_ffff_ffff_ffff_ffff_ffff_ffff_ffff) by (nonlinear_arith)
        requires
            -0x1000_0000_0000_0000_0000_0000 <= value <= 0x1000_0000_0000_0000_0000_0000,
            -0x8000_0000 <= f <= 0x7fff_ffff,
    ;
    let p: i128 = value * f;
    if p >= 0 {
        p / 65536
    } else {
        let m: i128 = -p;
        -(m / 65536)
    }
}

} // verus!
