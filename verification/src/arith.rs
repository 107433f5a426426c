//! Integer helpers beneath the tuple algebra: absolute value, division
//! rounded toward zero, and the integer square root.

use vstd::prelude::*;
use vstd::arithmetic::div_mod::{
    lemma_fundamental_div_mod, lemma_fundamental_div_mod_converse, lemma_mod_bound,
    lemma_mod_multiples_basic,
};

verus! {

/// Absolute value of a mathematical integer.
pub open spec fn abs_val(a: int) -> int {
    if a >= 0 {
        a
    } else {
        -a
    }
}

/// Quotient of `a` by `b` rounded toward zero — the rounding that machine
/// integer division performs (spec-level `/` rounds toward negative infinity).
pub open spec fn div_trunc(a: int, b: int) -> int {
    if (a >= 0) == (b >= 0) {
        abs_val(a) / abs_val(b)
    } else {
        -(abs_val(a) / abs_val(b))
    }
}

/// Integer square root: the greatest `r` with `r * r <= n`.
pub open spec fn isqrt(n: nat) -> nat
    decreases n,
{
    if n == 0 {
        0
    } else {
        let r = isqrt((n - 1) as nat);
        if (r + 1) * (r + 1) <= n {
            r + 1
        } else {
            r
        }
    }
}

/// `isqrt(n)` is the unique nonnegative root with `r * r <= n < (r+1) * (r+1)`.
pub proof fn lemma_isqrt_bounds(n: nat)
    ensures
        isqrt(n) * isqrt(n) <= n,
        n < (isqrt(n) + 1) * (isqrt(n) + 1),
    decreases n,
{
    if n == 0 {
        assert(isqrt(n) + 1 == 1);
        assert((isqrt(n) + 1) * (isqrt(n) + 1) == 1);
    } else {
        let m = (n - 1) as nat;
        lemma_isqrt_bounds(m);
        let r = isqrt(m);
        assert(r * r <= m);
        assert(m < (r + 1) * (r + 1));
        if (r + 1) * (r + 1) <= n {
            assert(isqrt(n) == r + 1);
            // since n - 1 < (r+1)*(r+1) as well, n is the exact square
            assert(n == (r + 1) * (r + 1));
            assert((r + 1) * (r + 1) < (r + 2) * (r + 2)) by (nonlinear_arith)
                requires
                    r >= 0,
            ;
        } else {
            assert(isqrt(n) == r);
        }
    }
}

/// The square root of a positive number is positive.
pub proof fn lemma_isqrt_pos(n: nat)
    requires
        n >= 1,
    ensures
        isqrt(n) >= 1,
{
    lemma_isqrt_bounds(n);
    let s = isqrt(n);
    if s == 0 {
        assert((s + 1) * (s + 1) == 1) by (nonlinear_arith)
            requires
                s == 0nat,
        ;
    }
}

/// Any `r` satisfying the square-root bracketing equals `isqrt(n)`.
pub proof fn lemma_isqrt_unique(n: nat, r: nat)
    requires
        r * r <= n,
        n < (r + 1) * (r + 1),
    ensures
        r == isqrt(n),
{
    lemma_isqrt_bounds(n);
    let s = isqrt(n);
    if r < s {
        assert((r + 1) * (r + 1) <= s * s) by (nonlinear_arith)
            requires
                r + 1 <= s,
                r >= 0,
        ;
    }
    if s < r {
        assert((s + 1) * (s + 1) <= r * r) by (nonlinear_arith)
            requires
                s + 1 <= r,
                s >= 0,
        ;
    }
}

/// Division rounded toward zero, on `i64` operands.
pub fn div_trunc_i64(a: i64, b: i64) -> (q: i64)
    requires
        b != 0,
        a != i64::MIN,
        b != i64::MIN,
    ensures
        q == div_trunc(a as int, b as int),
{
    let ua: u64 = if a >= 0 {
        a as u64
    } else {
        (-a) as u64
    };
    let ub: u64 = if b >= 0 {
        b as u64
    } else {
        (-b) as u64
    };
    proof {
        assert(ua == abs_val(a as int));
        assert(ub == abs_val(b as int));
        assert(ua as int / ub as int <= ua) by (nonlinear_arith)
            requires
                ua >= 0,
                ub >= 1,
        ;
    }
    let uq: u64 = ua / ub;
    if (a >= 0) == (b >= 0) {
        uq as i64
    } else {
        -(uq as i64)
    }
}

/// The quotient rounded toward zero never overshoots the true quotient in
/// magnitude, and undershoots it by less than one.
pub proof fn lemma_div_trunc_bounds(v: int, d: int)
    requires
        d > 0,
    ensures
        abs_val(div_trunc(v, d)) * d <= abs_val(v),
        abs_val(v) < (abs_val(div_trunc(v, d)) + 1) * d,
{
    let a = abs_val(v);
    let q = a / d;
    lemma_fundamental_div_mod(a, d);
    lemma_mod_bound(a, d);
    assert(abs_val(div_trunc(v, d)) == q);
    assert(q * d == d * q) by (nonlinear_arith);
    assert((q + 1) * d == d * q + d) by (nonlinear_arith);
}

/// Flipping the numerator's sign flips the truncated quotient.
pub proof fn lemma_div_trunc_neg(v: int, d: int)
    requires
        d != 0,
    ensures
        div_trunc(-v, d) == -div_trunc(v, d),
{
    assert(abs_val(-v) == abs_val(v));
}

/// Against the spec-level (floor) quotient, truncation differs by at most one,
/// and only upward.
pub proof fn lemma_div_trunc_vs_floor(v: int, d: int)
    requires
        d > 0,
    ensures
        v / d <= div_trunc(v, d) <= v / d + 1,
{
    if v >= 0 {
        assert(div_trunc(v, d) == v / d);
    } else {
        let q = v / d;
        let r = v % d;
        lemma_fundamental_div_mod(v, d);
        lemma_mod_bound(v, d);
        if r == 0 {
            assert((-v) == (-q) * d + 0) by (nonlinear_arith)
                requires
                    v == d * q,
            ;
            lemma_fundamental_div_mod_converse(-v, d, -q, 0);
            assert(div_trunc(v, d) == -((-v) / d));
        } else {
            assert((-v) == (-q - 1) * d + (d - r)) by (nonlinear_arith)
                requires
                    v == d * q + r,
            ;
            lemma_fundamental_div_mod_converse(-v, d, -q - 1, d - r);
            assert(div_trunc(v, d) == -((-v) / d));
        }
    }
}

/// On an exact multiple of the divisor, truncation agrees with the floor
/// quotient and loses nothing.
pub proof fn lemma_div_trunc_exact(v: int, d: int)
    requires
        d > 0,
        v % d == 0,
    ensures
        div_trunc(v, d) == v / d,
        div_trunc(v, d) * d == v,
{
    let q = v / d;
    lemma_fundamental_div_mod(v, d);
    if v >= 0 {
        assert(div_trunc(v, d) == v / d);
    } else {
        assert((-v) == (-q) * d + 0) by (nonlinear_arith)
            requires
                v == d * q,
        ;
        lemma_fundamental_div_mod_converse(-v, d, -q, 0);
        assert(div_trunc(v, d) == -((-v) / d));
    }
    assert(q * d == d * q) by (nonlinear_arith);
}

/// Floor quotients of a sum: at most one unit above the sum of the quotients.
pub proof fn lemma_div_floor_add(s1: int, s2: int, d: int)
    requires
        d > 0,
    ensures
        s1 / d + s2 / d <= (s1 + s2) / d <= s1 / d + s2 / d + 1,
{
    let q1 = s1 / d;
    let r1 = s1 % d;
    let q2 = s2 / d;
    let r2 = s2 % d;
    lemma_fundamental_div_mod(s1, d);
    lemma_mod_bound(s1, d);
    lemma_fundamental_div_mod(s2, d);
    lemma_mod_bound(s2, d);
    if r1 + r2 < d {
        assert(s1 + s2 == (q1 + q2) * d + (r1 + r2)) by (nonlinear_arith)
            requires
                s1 == d * q1 + r1,
                s2 == d * q2 + r2,
        ;
        lemma_fundamental_div_mod_converse(s1 + s2, d, q1 + q2, r1 + r2);
    } else {
        assert(s1 + s2 == (q1 + q2 + 1) * d + (r1 + r2 - d)) by (nonlinear_arith)
            requires
                s1 == d * q1 + r1,
                s2 == d * q2 + r2,
        ;
        lemma_fundamental_div_mod_converse(s1 + s2, d, q1 + q2 + 1, r1 + r2 - d);
    }
}

/// Truncated quotients of a sum stray from the sum of the quotients by at most
/// two units.
pub proof fn lemma_div_trunc_add_err(s1: int, s2: int, d: int)
    requires
        d > 0,
    ensures
        abs_val(div_trunc(s1 + s2, d) - div_trunc(s1, d) - div_trunc(s2, d)) <= 2,
{
    lemma_div_trunc_vs_floor(s1 + s2, d);
    lemma_div_trunc_vs_floor(s1, d);
    lemma_div_trunc_vs_floor(s2, d);
    lemma_div_floor_add(s1, s2, d);
}

/// On exact multiples of the divisor, truncated division distributes over
/// addition with no error at all.
pub proof fn lemma_div_trunc_add_exact(s1: int, s2: int, d: int)
    requires
        d > 0,
        s1 % d == 0,
        s2 % d == 0,
    ensures
        div_trunc(s1 + s2, d) == div_trunc(s1, d) + div_trunc(s2, d),
{
    let q1 = s1 / d;
    let q2 = s2 / d;
    lemma_fundamental_div_mod(s1, d);
    lemma_fundamental_div_mod(s2, d);
    assert(s1 + s2 == (q1 + q2) * d + 0) by (nonlinear_arith)
        requires
            s1 == d * q1,
            s2 == d * q2,
    ;
    lemma_fundamental_div_mod_converse(s1 + s2, d, q1 + q2, 0);
    lemma_fundamental_div_mod_converse(s1, d, q1, 0);
    lemma_fundamental_div_mod_converse(s2, d, q2, 0);
    lemma_div_trunc_exact(s1 + s2, d);
    lemma_div_trunc_exact(s1, d);
    lemma_div_trunc_exact(s2, d);
}

/// Absolute value splits over a product with a positive factor.
pub proof fn lemma_abs_mul_pos(v: int, s: int)
    requires
        s > 0,
    ensures
        abs_val(v * s) == abs_val(v) * s,
{
    if v >= 0 {
        assert(v * s >= 0) by (nonlinear_arith)
            requires
                v >= 0,
                s > 0,
        ;
    } else {
        assert(v * s < 0) by (nonlinear_arith)
            requires
                v < 0,
                s > 0,
        ;
        assert(-(v * s) == (-v) * s) by (nonlinear_arith);
    }
}

/// A multiple of `d`, times anything, is still a multiple of `d`.
pub proof fn lemma_mul_multiple_mod(v: int, k: int, d: int)
    requires
        d > 0,
        v % d == 0,
    ensures
        (v * k) % d == 0,
{
    lemma_fundamental_div_mod(v, d);
    assert(v * k == ((v / d) * k) * d) by (nonlinear_arith)
        requires
            v == d * (v / d),
    ;
    lemma_mod_multiples_basic((v / d) * k, d);
}

/// Integer square root of a `u64` within the `i64` range.
pub fn isqrt_u64(n: u64) -> (r: u64)
    requires
        n <= i64::MAX,
    ensures
        r == isqrt(n as nat),
        r * r <= n,
        n < (r + 1) * (r + 1),
{
    let mut lo: u64 = 0;
    let mut hi: u64 = 3_037_000_500;
    proof {
        assert(3_037_000_500int * 3_037_000_500int == 9_223_372_037_000_250_000int);
    }
    while lo + 1 < hi
        invariant
            lo < hi,
            hi <= 3_037_000_500,
            lo * lo <= n,
            n < hi * hi,
            n <= i64::MAX,
        decreases hi - lo,
    {
        let mid: u64 = lo + (hi - lo) / 2;
        proof {
            assert(lo < mid < hi);
            assert(mid as int * mid as int <= 3_037_000_499int * 3_037_000_499int)
                by (nonlinear_arith)
                requires
                    0 <= mid as int <= 3_037_000_499int,
            ;
            assert(3_037_000_499int * 3_037_000_499int == 9_223_372_030_926_249_001int);
        }
        if mid * mid <= n {
            lo = mid;
        } else {
            hi = mid;
        }
    }
    proof {
        assert(hi == lo + 1);
        lemma_isqrt_unique(n as nat, lo as nat);
    }
    lo
}

} // verus!
