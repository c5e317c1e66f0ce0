//! Fixed-point arithmetic helpers.
//!
//! The simulator keeps every physical quantity as a scaled integer.  The
//! helpers here implement the two operations the models need beyond plain
//! `+`, `-` and `*`: truncated (round-toward-zero) division by a positive
//! divisor, and widening multiplication into `i128` so that scaled products
//! never overflow.

use vstd::prelude::*;

verus! {

/// Truncated (round-toward-zero) division of `a` by a positive divisor `d`.
///
/// This matches what the executable code computes by dividing magnitudes and
/// restoring the sign afterwards.  For non-negative `a` it coincides with
/// Euclidean division.
pub open spec fn div_trunc(a: int, d: int) -> int
    recommends
        d > 0,
{
    if a >= 0 {
        a / d
    } else {
        -((-a) / d)
    }
}

/// Clamp `x` into the closed interval `[lo, hi]`.
pub open spec fn clamp_spec(x: int, lo: int, hi: int) -> int
    recommends
        lo <= hi,
{
    if x < lo {
        lo
    } else if x > hi {
        hi
    } else {
        x
    }
}

/// Widening multiplication: the product of two `i64` values always fits `i128`.
pub fn mul_wide(a: i64, b: i64) -> (r: i128)
    ensures
        r == a * b,
{
    proof {
        assert(i128::MIN <= (a as int) * (b as int) <= i128::MAX) by (nonlinear_arith);
    }
    (a as i128) * (b as i128)
}

/// Truncated division on `i128`, restricted to positive `u64` divisors.
pub fn div_trunc_i128(a: i128, d: u64) -> (r: i128)
    requires
        d > 0,
        a > i128::MIN,
    ensures
        r == div_trunc(a as int, d as int),
{
    if a >= 0 {
        let q: u128 = (a as u128) / (d as u128);
        proof {
            lemma_div_shrinks(a as int, d as int);
        }
        q as i128
    } else {
        let m: u128 = (-a) as u128;
        let q: u128 = m / (d as u128);
        proof {
            lemma_div_shrinks(m as int, d as int);
        }
        -(q as i128)
    }
}

/// Truncated division on `i64`, restricted to positive `u64` divisors.
pub fn div_trunc_i64(a: i64, d: u64) -> (r: i64)
    requires
        d > 0,
        a > i64::MIN,
    ensures
        r == div_trunc(a as int, d as int),
{
    if a >= 0 {
        let q: u64 = (a as u64) / d;
        proof {
            lemma_div_shrinks(a as int, d as int);
        }
        q as i64
    } else {
        let m: u64 = (-a) as u64;
        let q: u64 = m / d;
        proof {
            lemma_div_shrinks(m as int, d as int);
        }
        -(q as i64)
    }
}

/// Euclidean division of a non-negative value by a positive divisor never
/// grows the value.
pub proof fn lemma_div_shrinks(a: int, d: int)
    requires
        a >= 0,
        d > 0,
    ensures
        0 <= a / d <= a,
{
    assert(0 <= a / d <= a) by (nonlinear_arith)
        requires
            a >= 0,
            d > 0,
    ;
}

/// Truncated division by a positive divisor is monotone in the dividend.
pub proof fn lemma_div_trunc_ordered(a: int, b: int, d: int)
    requires
        a <= b,
        d > 0,
    ensures
        div_trunc(a, d) <= div_trunc(b, d),
{
    if a >= 0 {
        assert(a / d <= b / d) by (nonlinear_arith)
            requires
                0 <= a <= b,
                d > 0,
        ;
    } else if b < 0 {
        assert((-b) / d <= (-a) / d) by (nonlinear_arith)
            requires
                0 < -b <= -a,
                d > 0,
        ;
    } else {
        lemma_div_shrinks(-a, d);
        lemma_div_shrinks(b, d);
    }
}

/// The magnitude of a truncated quotient is bounded by the magnitude of the
/// dividend divided by the divisor, hence by the dividend itself.
pub proof fn lemma_div_trunc_bound(a: int, d: int)
    requires
        d > 0,
    ensures
        -(if a >= 0 { a } else { -a }) <= div_trunc(a, d) <= (if a >= 0 { a } else { -a }),
{
    if a >= 0 {
        lemma_div_shrinks(a, d);
    } else {
        lemma_div_shrinks(-a, d);
    }
}

/// A dividend bounded by the multiple `m * d` has its truncated quotient
/// bounded by `m`.
pub proof fn lemma_div_trunc_quotient_bound(a: int, d: int, m: int)
    requires
        d > 0,
        m >= 0,
        -(m * d) <= a <= m * d,
    ensures
        -m <= div_trunc(a, d) <= m,
{
    lemma_div_trunc_exact(m, d);
    lemma_div_trunc_exact(-m, d);
    lemma_div_trunc_ordered(a, m * d, d);
    assert((-m) * d == -(m * d)) by (nonlinear_arith);
    lemma_div_trunc_ordered((-m) * d, a, d);
}

/// Dividing an exact multiple `m * d` by `d` recovers `m`.
pub proof fn lemma_div_trunc_exact(m: int, d: int)
    requires
        d > 0,
    ensures
        div_trunc(m * d, d) == m,
{
    if m >= 0 {
        assert(m * d >= 0 && (m * d) / d == m) by (nonlinear_arith)
            requires
                m >= 0,
                d > 0,
        ;
    } else {
        assert(m * d < 0 && (-(m * d)) == (-m) * d) by (nonlinear_arith)
            requires
                m < 0,
                d > 0,
        ;
        assert(((-m) * d) / d == -m) by (nonlinear_arith)
            requires
                -m > 0,
                d > 0,
        ;
    }
}

} // verus!
