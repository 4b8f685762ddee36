//! Fixed-point helpers shared by the game rules.
//!
//! A real quantity `q` is held as the integer `q * SCALE`. Every helper here
//! is exact on the integers it is given: divisions round toward zero and the
//! contracts say so.

use vstd::prelude::*;

verus! {

/// Number of fixed-point steps in one whole unit.
pub const SCALE: i64 = 1000;

/// Largest magnitude that a configured quantity may have.
pub const LIMIT: i64 = 1_000_000_000;

/// Largest magnitude of a coordinate: positions saturate at this distance
/// from the origin.
pub const FAR: i64 = 3_000_000_000_000_000_000;

/// `v` limited to the interval `[lo, hi]`.
pub open spec fn clamp_spec(v: int, lo: int, hi: int) -> int {
    if v < lo {
        lo
    } else if v > hi {
        hi
    } else {
        v
    }
}

/// Absolute value of `v`.
pub open spec fn abs_spec(v: int) -> int {
    if v < 0 {
        -v
    } else {
        v
    }
}

/// `v * num / den`, rounded toward zero whatever the sign of `v`.
pub open spec fn scale_spec(v: int, num: int, den: int) -> int {
    if v < 0 {
        -(((-v) * num) / den)
    } else {
        (v * num) / den
    }
}

/// The integer square root: the largest `r` with `r * r <= n`.
pub open spec fn is_isqrt(n: int, r: int) -> bool {
    &&& 0 <= r
    &&& r * r <= n
    &&& n < (r + 1) * (r + 1)
}

/// The integer square root of `n` as a function.
pub open spec fn floor_sqrt(n: int) -> int {
    choose|r: int| is_isqrt(n, r)
}

/// Limits `v` to `[lo, hi]`.
pub fn clamp(v: i64, lo: i64, hi: i64) -> (r: i64)
    requires
        lo <= hi,
    ensures
        r == clamp_spec(v as int, lo as int, hi as int),
        lo <= r <= hi,
{
    if v < lo {
        lo
    } else if v > hi {
        hi
    } else {
        v
    }
}

/// Limits a wide intermediate value to `[lo, hi]`.
pub fn clamp_wide(v: i128, lo: i64, hi: i64) -> (r: i64)
    requires
        lo <= hi,
    ensures
        r == clamp_spec(v as int, lo as int, hi as int),
        lo <= r <= hi,
{
    if v < lo as i128 {
        lo
    } else if v > hi as i128 {
        hi
    } else {
        v as i64
    }
}

/// A product of two non-negative 64-bit values fits in 128 bits.
pub proof fn lemma_product_fits(a: int, b: int)
    requires
        0 <= a <= i64::MAX,
        0 <= b <= i64::MAX,
    ensures
        0 <= a * b <= i64::MAX * i64::MAX,
        a * b <= i128::MAX,
{
    assert(0 <= a * b <= i64::MAX * i64::MAX) by (nonlinear_arith)
        requires
            0 <= a <= i64::MAX,
            0 <= b <= i64::MAX,
    ;
}

/// Floor division is monotone in a non-negative numerator and antitone in a
/// positive denominator.
pub proof fn lemma_div_monotone(x: int, y: int, c: int, d: int)
    requires
        0 <= x <= y,
        0 < c <= d,
    ensures
        x / d <= y / c,
        0 <= x / d,
{
    vstd::arithmetic::div_mod::lemma_div_is_ordered(x, y, d);
    vstd::arithmetic::div_mod::lemma_div_is_ordered_by_denominator(y, c, d);
    vstd::arithmetic::div_mod::lemma_div_pos_is_pos(x, d);
}

/// `a * b / c` for non-negative `a`, `b` and positive `c`, rounded down.
pub fn mul_div(a: i64, b: i64, c: i64) -> (r: i64)
    requires
        0 <= a,
        0 <= b,
        0 < c,
        (a * b) / (c as int) <= i64::MAX,
    ensures
        r == (a * b) / (c as int),
        r >= 0,
{
    proof {
        lemma_product_fits(a as int, b as int);
        lemma_div_monotone(0, a * b, c as int, c as int);
    }
    let wide: i128 = (a as i128) * (b as i128);
    let q: i128 = wide / (c as i128);
    q as i64
}

/// `v * num / den` rounded toward zero, for a signed `v`.
pub fn scale(v: i64, num: i64, den: i64) -> (r: i64)
    requires
        v > i64::MIN,
        0 <= num,
        0 < den,
        (abs_spec(v as int) * num) / (den as int) <= i64::MAX,
    ensures
        r == scale_spec(v as int, num as int, den as int),
        abs_spec(r as int) == (abs_spec(v as int) * num) / (den as int),
        v >= 0 ==> r >= 0,
        v <= 0 ==> r <= 0,
{
    if v < 0 {
        let m: i64 = mul_div(-v, num, den);
        -m
    } else {
        proof {
            if v == 0 {
                assert(v * num == 0) by (nonlinear_arith)
                    requires
                        v == 0,
                ;
            }
        }
        mul_div(v, num, den)
    }
}

/// Squaring is strictly monotone on the non-negative integers.
pub proof fn lemma_square_monotone(a: int, b: int)
    requires
        0 <= a <= b,
    ensures
        a * a <= b * b,
{
    assert(a * a <= b * b) by (nonlinear_arith)
        requires
            0 <= a <= b,
    ;
}

/// A number has one integer square root only.
pub proof fn lemma_isqrt_unique(n: int, r: int)
    requires
        is_isqrt(n, r),
    ensures
        floor_sqrt(n) == r,
{
    let s = floor_sqrt(n);
    if s < r {
        lemma_square_monotone(s + 1, r);
    } else if r < s {
        lemma_square_monotone(r + 1, s);
    }
}

/// The integer square root of `n`.
pub fn isqrt(n: u128) -> (r: u128)
    ensures
        is_isqrt(n as int, r as int),
        r == floor_sqrt(n as int),
        r <= u64::MAX,
{
    let mut lo: u128 = 0;
    let mut hi: u128 = 0x1_0000_0000_0000_0000;
    proof {
        assert(0x1_0000_0000_0000_0000int * 0x1_0000_0000_0000_0000int > u128::MAX)
            by (nonlinear_arith);
    }
    while hi - lo > 1
        invariant
            lo < hi <= 0x1_0000_0000_0000_0000,
            lo * lo <= n,
            n < hi * hi,
        decreases hi - lo,
    {
        let mid: u128 = lo + (hi - lo) / 2;
        proof {
            lemma_square_monotone(mid as int, u64::MAX as int);
        }
        if mid * mid <= n {
            lo = mid;
        } else {
            hi = mid;
        }
    }
    proof {
        lemma_isqrt_unique(n as int, lo as int);
    }
    lo
}

} // verus!
