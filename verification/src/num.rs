//! Scalar fixed-point primitives: truncating division, integer square
//! root, clamping, and the lemmas about them that the physics needs.
use vstd::prelude::*;
use vstd::arithmetic::div_mod::{
    lemma_div_by_multiple, lemma_div_is_ordered, lemma_div_is_ordered_by_denominator,
    lemma_div_nonincreasing, lemma_div_pos_is_pos, lemma_fundamental_div_mod, lemma_mod_bound,
};

verus! {

/// Absolute value.
pub open spec fn s_abs(n: int) -> int {
    if n >= 0 {
        n
    } else {
        -n
    }
}

/// The larger of two integers.
pub open spec fn s_max(a: int, b: int) -> int {
    if a >= b {
        a
    } else {
        b
    }
}

/// `x` forced into `[lo, hi]`.
pub open spec fn s_clamp(x: int, lo: int, hi: int) -> int {
    if x < lo {
        lo
    } else if x > hi {
        hi
    } else {
        x
    }
}

/// Division of `n` by a positive `d`, rounding toward zero.  This is the
/// rounding used by every arithmetic step of the simulation; its symmetry
/// (`s_tdiv(-n, d) == -s_tdiv(n, d)`) is what makes the dynamics preserve
/// point symmetry exactly.
pub open spec fn s_tdiv(n: int, d: int) -> int {
    if n >= 0 {
        n / d
    } else {
        -((-n) / d)
    }
}

/// `r` is the floor of the square root of `n`.
pub open spec fn is_isqrt(n: int, r: int) -> bool {
    0 <= r && r * r <= n && n < (r + 1) * (r + 1)
}

/// The floor of the square root of a nonnegative `n`.
pub open spec fn s_isqrt(n: int) -> int {
    choose|r: int| is_isqrt(n, r)
}

/// Squaring is monotone on nonnegative integers.
proof fn lemma_square_mono(a: int, b: int)
    by (nonlinear_arith)
    requires
        0 <= a <= b,
    ensures
        a * a <= b * b,
{
}

/// Truncating division by a positive divisor is an odd function of the
/// numerator.
pub proof fn lemma_tdiv_neg(n: int, d: int)
    requires
        d > 0,
    ensures
        s_tdiv(-n, d) == -s_tdiv(n, d),
{
    if n == 0 {
        lemma_div_pos_is_pos(0, d);
        lemma_div_nonincreasing(0, d);
    }
}

/// Truncating division of zero gives zero, and by one gives the numerator.
pub proof fn lemma_tdiv_basics(n: int, d: int)
    requires
        d > 0,
    ensures
        s_tdiv(0, d) == 0,
        s_tdiv(n, 1) == n,
        n >= 0 ==> s_tdiv(n, d) >= 0,
        n <= 0 ==> s_tdiv(n, d) <= 0,
{
    lemma_div_pos_is_pos(0, d);
    lemma_div_nonincreasing(0, d);
    if n >= 0 {
        lemma_div_pos_is_pos(n, d);
        lemma_div_by_multiple(n, 1);
    } else {
        lemma_div_pos_is_pos(-n, d);
        lemma_div_by_multiple(-n, 1);
    }
}

/// A bound on a truncating quotient from a bound on the numerator: if
/// `|n| <= b * dm` and the divisor is at least `dm`, the quotient's
/// magnitude is at most `b`.
pub proof fn lemma_tdiv_bound(n: int, d: int, dm: int, b: int)
    requires
        d >= dm,
        dm > 0,
        b >= 0,
        s_abs(n) <= b * dm,
    ensures
        s_abs(s_tdiv(n, d)) <= b,
{
    let m = if n >= 0 {
        n
    } else {
        -n
    };
    lemma_div_pos_is_pos(m, d);
    lemma_div_is_ordered_by_denominator(m, dm, d);
    lemma_div_is_ordered(m, b * dm, dm);
    lemma_div_by_multiple(b, dm);
    assert((b * dm) / dm == b);
}

/// A truncating quotient is no larger in magnitude than its numerator.
pub proof fn lemma_tdiv_abs_le(n: int, d: int)
    requires
        d > 0,
    ensures
        s_abs(s_tdiv(n, d)) <= s_abs(n),
{
    lemma_tdiv_bound(n, d, 1, s_abs(n));
}

/// The rounding error of truncating division: `d * s_tdiv(n, d)` differs
/// from `n` by less than `d`, and never overshoots `n`'s magnitude.
pub proof fn lemma_tdiv_error(n: int, d: int)
    requires
        d > 0,
    ensures
        s_abs(d * s_tdiv(n, d) - n) <= d - 1,
        s_abs(d * s_tdiv(n, d)) <= s_abs(n),
{
    let m = if n >= 0 {
        n
    } else {
        -n
    };
    lemma_fundamental_div_mod(m, d);
    lemma_mod_bound(m, d);
    lemma_div_pos_is_pos(m, d);
    assert(d * (m / d) == m - m % d);
    if n < 0 {
        assert(d * -(m / d) == -(d * (m / d))) by (nonlinear_arith);
    }
}

/// Any two floor square roots of the same number are equal, so the result
/// of the executable search is exactly `s_isqrt`.
pub proof fn lemma_isqrt_unique(n: int, r: int)
    requires
        is_isqrt(n, r),
    ensures
        s_isqrt(n) == r,
{
    assert(is_isqrt(n, r));
    let w = s_isqrt(n);
    assert(is_isqrt(n, w)) by {
        assert(exists|q: int| is_isqrt(n, q));
    }
    if w < r {
        lemma_square_mono(w + 1, r);
    }
    if r < w {
        lemma_square_mono(r + 1, w);
    }
}

/// Every nonnegative integer has a floor square root.
pub proof fn lemma_isqrt_exists(n: int)
    requires
        n >= 0,
    ensures
        is_isqrt(n, s_isqrt(n)),
    decreases n,
{
    if n == 0 {
        assert(is_isqrt(0, 0));
    } else {
        lemma_isqrt_exists(n - 1);
        let r = s_isqrt(n - 1);
        if n < (r + 1) * (r + 1) {
            assert(is_isqrt(n, r));
        } else {
            assert(n == (r + 1) * (r + 1));
            assert(is_isqrt(n, r + 1)) by (nonlinear_arith)
                requires
                    n == (r + 1) * (r + 1),
                    r >= 0,
            ;
        }
    }
    assert(exists|q: int| is_isqrt(n, q));
}

/// If `t * t <= n`, the floor square root of `n` is at least `t`.
pub proof fn lemma_isqrt_lower(n: int, t: int)
    requires
        0 <= t,
        t * t <= n,
    ensures
        s_isqrt(n) >= t,
{
    lemma_isqrt_exists(n);
    let r = s_isqrt(n);
    if r < t {
        lemma_square_mono(r + 1, t);
    }
}

/// The magnitude of a product is bounded by the product of the bounds.
pub proof fn lemma_mul_abs_bound(a: int, b: int, ba: int, bb: int)
    by (nonlinear_arith)
    requires
        s_abs(a) <= ba,
        s_abs(b) <= bb,
    ensures
        s_abs(a * b) <= ba * bb,
{
}

/// A product of factors that are at least one is at least one.
pub proof fn lemma_mul_ge_one(a: int, b: int)
    by (nonlinear_arith)
    requires
        a >= 1,
        b >= 1,
    ensures
        a * b >= 1,
{
}

/// Multiplication of `i128` values, proved free of overflow from bounds on
/// the magnitudes of the factors.
pub fn mul128(a: i128, b: i128, Ghost(ba): Ghost<int>, Ghost(bb): Ghost<int>) -> (r: i128)
    requires
        s_abs(a as int) <= ba,
        s_abs(b as int) <= bb,
        ba * bb <= i128::MAX,
    ensures
        r == a * b,
        s_abs(r as int) <= ba * bb,
{
    proof {
        lemma_mul_abs_bound(a as int, b as int, ba, bb);
    }
    a * b
}

/// Truncating division of `i128` values by a positive divisor.
pub fn tdiv128(n: i128, d: i128) -> (r: i128)
    requires
        d > 0,
        n > i128::MIN,
    ensures
        r == s_tdiv(n as int, d as int),
{
    if n >= 0 {
        let q = (n as u128) / (d as u128);
        proof {
            lemma_div_pos_is_pos(n as int, d as int);
            lemma_div_nonincreasing(n as int, d as int);
        }
        q as i128
    } else {
        let q = ((-n) as u128) / (d as u128);
        proof {
            lemma_div_pos_is_pos(-(n as int), d as int);
            lemma_div_nonincreasing(-(n as int), d as int);
        }
        -(q as i128)
    }
}

/// Floor of the square root of a `u128`, found by binary search.
pub fn isqrt128(n: u128) -> (r: u128)
    ensures
        r == s_isqrt(n as int),
        is_isqrt(n as int, r as int),
{
    let mut lo: u128 = 0;
    let mut hi: u128 = 0xFFFF_FFFF_FFFF_FFFF;
    proof {
        assert(n < (0xFFFF_FFFF_FFFF_FFFFu128 + 1) * (0xFFFF_FFFF_FFFF_FFFFu128 + 1))
            by (nonlinear_arith)
            requires
                n <= u128::MAX,
        ;
    }
    while lo < hi
        invariant
            lo <= hi <= 0xFFFF_FFFF_FFFF_FFFF,
            lo * lo <= n,
            n < (hi + 1) * (hi + 1),
        decreases hi - lo,
    {
        let mid = lo + (hi - lo + 1) / 2;
        assert(lo < mid <= hi);
        assert(mid * mid <= 0xFFFF_FFFF_FFFF_FFFFu128 * 0xFFFF_FFFF_FFFF_FFFFu128)
            by (nonlinear_arith)
            requires
                mid <= 0xFFFF_FFFF_FFFF_FFFFu128,
        ;
        if mid * mid <= n {
            lo = mid;
        } else {
            hi = mid - 1;
        }
    }
    proof {
        lemma_isqrt_unique(n as int, lo as int);
    }
    lo
}

/// `x` forced into `[lo, hi]`.
pub fn clamp64(x: i64, lo: i64, hi: i64) -> (r: i64)
    requires
        lo <= hi,
    ensures
        r == s_clamp(x as int, lo as int, hi as int),
{
    if x < lo {
        lo
    } else if x > hi {
        hi
    } else {
        x
    }
}

} // verus!
