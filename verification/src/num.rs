//! Integer helpers for the fixed-point simulation: truncating division,
//! an integer square root with its specification, and the small
//! nonlinear-arithmetic lemmas the force model and integrator rest on.

use vstd::prelude::*;

verus! {

/// Division that truncates toward zero, as the simulation's fixed-point
/// arithmetic does (spec-level `/` on `int` is Euclidean).
pub open spec fn tdiv(a: int, b: int) -> int {
    if a >= 0 {
        a / b
    } else {
        -((-a) / b)
    }
}

/// Absolute value.
pub open spec fn abs_i(a: int) -> int {
    if a >= 0 {
        a
    } else {
        -a
    }
}

/// The integer square root: the largest `r` with `r * r <= n`,
/// defined by counting up from `sp_isqrt(n - 1)`.
pub open spec fn sp_isqrt(n: int) -> int
    decreases n,
{
    if n <= 0 {
        0
    } else {
        let r: int = sp_isqrt(n - 1);
        if (r + 1) * (r + 1) <= n {
            r + 1
        } else {
            r
        }
    }
}

/// `sp_isqrt(n)` brackets `n` between consecutive squares.
pub proof fn lemma_sp_isqrt_bounds(n: int)
    requires
        n >= 0,
    ensures
        sp_isqrt(n) >= 0,
        sp_isqrt(n) * sp_isqrt(n) <= n,
        n < (sp_isqrt(n) + 1) * (sp_isqrt(n) + 1),
    decreases n,
{
    if n > 0 {
        lemma_sp_isqrt_bounds(n - 1);
        let r: int = sp_isqrt(n - 1);
        if (r + 1) * (r + 1) <= n {
            assert(n < (r + 2) * (r + 2)) by (nonlinear_arith)
                requires
                    r >= 0,
                    n - 1 < (r + 1) * (r + 1),
                    (r + 1) * (r + 1) <= n,
            ;
        }
    }
}

/// Any `r` bracketing `n` between `r * r` and `(r + 1) * (r + 1)` is
/// the integer square root.
pub proof fn lemma_isqrt_unique(n: int, r: int)
    requires
        r >= 0,
        r * r <= n,
        n < (r + 1) * (r + 1),
    ensures
        r == sp_isqrt(n),
{
    lemma_sp_isqrt_bounds(n);
    let s: int = sp_isqrt(n);
    assert(r == s) by (nonlinear_arith)
        requires
            r >= 0,
            s >= 0,
            r * r <= n,
            n < (r + 1) * (r + 1),
            s * s <= n,
            n < (s + 1) * (s + 1),
    ;
}

/// A positive number has a positive integer square root.
pub proof fn lemma_sp_isqrt_pos(n: int)
    requires
        n >= 1,
    ensures
        sp_isqrt(n) >= 1,
    decreases n,
{
    lemma_sp_isqrt_bounds(n);
    let r: int = sp_isqrt(n);
    assert(r >= 1) by (nonlinear_arith)
        requires
            n >= 1,
            r >= 0,
            n < (r + 1) * (r + 1),
    ;
}

/// A component whose square is at most `n` is bounded by `sp_isqrt(n)`
/// in absolute value.
pub proof fn lemma_component_le_isqrt(c: int, n: int)
    requires
        c * c <= n,
    ensures
        abs_i(c) <= sp_isqrt(n),
{
    assert(n >= 0) by (nonlinear_arith)
        requires
            c * c <= n,
    ;
    lemma_sp_isqrt_bounds(n);
    let r: int = sp_isqrt(n);
    assert(abs_i(c) <= r) by (nonlinear_arith)
        requires
            r >= 0,
            c * c <= n,
            n < (r + 1) * (r + 1),
    ;
}

/// Products grow with their nonnegative factors.
pub proof fn lemma_mul_le_mul(a: int, b: int, c: int, d: int)
    requires
        0 <= a <= c,
        0 <= b <= d,
    ensures
        a * b <= c * d,
{
    assert(a * b <= c * d) by (nonlinear_arith)
        requires
            0 <= a <= c,
            0 <= b <= d,
    ;
}

/// What truncating division guarantees of nonnegative operands:
/// `(a / b) * b` does not exceed `a`, and the quotient shrinks.
pub proof fn lemma_div_mul_le(a: int, b: int)
    requires
        a >= 0,
        b >= 1,
    ensures
        0 <= a / b,
        (a / b) * b <= a,
        a / b <= a,
        a < (a / b + 1) * b,
{
    assert(0 <= a / b && (a / b) * b <= a && a / b <= a && a < (a / b + 1) * b)
        by (nonlinear_arith)
        requires
            a >= 0,
            b >= 1,
    ;
}

/// Dividing by `b` twice is dividing by `b * b`.
pub proof fn lemma_div_twice(a: int, b: int)
    requires
        a >= 0,
        b >= 1,
    ensures
        (a / b) / b == a / (b * b),
{
    vstd::arithmetic::div_mod::lemma_div_denominator(a, b, b);
}

/// Division of a signed value by a positive one, truncating toward
/// zero.
pub fn tdiv_i128(a: i128, b: i128) -> (r: i128)
    requires
        b >= 1,
        a > i128::MIN,
    ensures
        r as int == tdiv(a as int, b as int),
        abs_i(r as int) <= abs_i(a as int),
    {
    proof {
        lemma_div_mul_le(abs_i(a as int), b as int);
    }
    if a >= 0 {
        let q: u128 = (a as u128) / (b as u128);
        q as i128
    } else {
        let q: u128 = ((-a) as u128) / (b as u128);
        -(q as i128)
    }
}

/// Computes the integer square root by binary search.
pub fn isqrt_u128(n: u128) -> (r: u128)
    requires
        n < 4_000_000_000_000_000_000_000_000_000_000_000_000u128,
    ensures
        r == sp_isqrt(n as int),
        r * r <= n,
        n < (r + 1) * (r + 1),
{
    let mut lo: u128 = 0;
    let mut hi: u128 = 2_000_000_000_000_000_000u128;
    while hi - lo > 1
        invariant
            lo < hi,
            hi <= 2_000_000_000_000_000_000u128,
            (lo as int) * (lo as int) <= n as int,
            (n as int) < (hi as int) * (hi as int),
        decreases hi - lo,
    {
        let mid: u128 = lo + (hi - lo) / 2;
        proof {
            lemma_mul_le_mul(mid as int, mid as int, hi as int, hi as int);
            lemma_mul_le_mul(
                hi as int,
                hi as int,
                2_000_000_000_000_000_000int,
                2_000_000_000_000_000_000int,
            );
        }
        if mid * mid <= n {
            lo = mid;
        } else {
            hi = mid;
        }
    }
    proof {
        lemma_isqrt_unique(n as int, lo as int);
    }
    lo
}

} // verus!
