//! The algebraic laws of the tuple algebra, stated and proved once and for
//! all over the mathematical view `Quad` — the same spec functions the
//! executable operations' contracts are written in.

use vstd::prelude::*;
use crate::arith::{
    abs_val, div_trunc, lemma_abs_mul_pos, lemma_div_trunc_add_err, lemma_div_trunc_add_exact,
    lemma_div_trunc_bounds, lemma_div_trunc_neg, lemma_isqrt_bounds, lemma_isqrt_unique,
    lemma_mul_multiple_mod,
};
use crate::tuple::{
    add_q, approx_eq_q, cross_q, is_point_q, is_vector_q, mag_q, neg_q, norm_q, point_q, scale_q,
    sub_q, sumsq_q, vector_q, Quad, EPSILON, SCALE,
};

verus! {

/// Every value built by the vector factory classifies as a vector and not
/// as a point, and symmetrically for the point factory; the factories set
/// `w` to exactly 0 and exactly `SCALE` (1.0).
pub proof fn lemma_factory_classification(x: int, y: int, z: int)
    ensures
        is_vector_q(vector_q(x, y, z)),
        !is_point_q(vector_q(x, y, z)),
        is_point_q(point_q(x, y, z)),
        !is_vector_q(point_q(x, y, z)),
        vector_q(x, y, z).w == 0,
        point_q(x, y, z).w == SCALE as int,
{
}

/// Sums and differences respect the point/vector tags: point − vector is a
/// point, point − point is a vector, vector − vector is a vector,
/// vector + vector is a vector, point + vector is a point.
pub proof fn lemma_point_vector_algebra(a: Quad, b: Quad)
    ensures
        is_point_q(a) && is_vector_q(b) ==> is_point_q(sub_q(a, b)),
        is_point_q(a) && is_point_q(b) ==> is_vector_q(sub_q(a, b)),
        is_vector_q(a) && is_vector_q(b) ==> is_vector_q(sub_q(a, b)),
        is_vector_q(a) && is_vector_q(b) ==> is_vector_q(add_q(a, b)),
        is_point_q(a) && is_vector_q(b) ==> is_point_q(add_q(a, b)),
{
}

/// Negation is its own inverse on every tuple.
pub proof fn lemma_negate_involutive(a: Quad)
    ensures
        neg_q(neg_q(a)) == a,
{
}

/// Scalar multiplication distributes over addition within the equality
/// tolerance, provided both operands carry a canonical tag (`w` a multiple
/// of `SCALE`, as every point, vector, or sum of such has).  With an
/// arbitrary `w` the tag coordinates may round differently on the two
/// sides, and the exact `w` comparison then fails.
pub proof fn lemma_scale_distributive(a: Quad, b: Quad, k: int)
    requires
        a.w % (SCALE as int) == 0,
        b.w % (SCALE as int) == 0,
    ensures
        approx_eq_q(scale_q(add_q(a, b), k), add_q(scale_q(a, k), scale_q(b, k))),
{
    let s = SCALE as int;
    assert((a.x + b.x) * k == a.x * k + b.x * k) by (nonlinear_arith);
    lemma_div_trunc_add_err(a.x * k, b.x * k, s);
    assert((a.y + b.y) * k == a.y * k + b.y * k) by (nonlinear_arith);
    lemma_div_trunc_add_err(a.y * k, b.y * k, s);
    assert((a.z + b.z) * k == a.z * k + b.z * k) by (nonlinear_arith);
    lemma_div_trunc_add_err(a.z * k, b.z * k, s);
    assert((a.w + b.w) * k == a.w * k + b.w * k) by (nonlinear_arith);
    lemma_mul_multiple_mod(a.w, k, s);
    lemma_mul_multiple_mod(b.w, k, s);
    lemma_div_trunc_add_exact(a.w * k, b.w * k, s);
}

/// The three standard basis vectors have magnitude exactly `SCALE` (1.0).
pub proof fn lemma_basis_magnitude()
    ensures
        mag_q(vector_q(SCALE as int, 0, 0)) == SCALE as int,
        mag_q(vector_q(0, SCALE as int, 0)) == SCALE as int,
        mag_q(vector_q(0, 0, SCALE as int)) == SCALE as int,
{
    let s = SCALE as int;
    assert(sumsq_q(vector_q(s, 0, 0)) == s * s);
    assert(sumsq_q(vector_q(0, s, 0)) == s * s);
    assert(sumsq_q(vector_q(0, 0, s)) == s * s);
    assert(1_000_000int * 1_000_000int == 1_000_000_000_000int);
    assert(1_000_001int * 1_000_001int == 1_000_002_000_001int);
    lemma_isqrt_unique((s * s) as nat, s as nat);
}

/// Magnitude ignores the sign of every coordinate: a tuple and its
/// negation have the same magnitude.
pub proof fn lemma_magnitude_sign_invariant(a: Quad)
    ensures
        mag_q(neg_q(a)) == mag_q(a),
{
    assert((-a.x) * (-a.x) == a.x * a.x) by (nonlinear_arith);
    assert((-a.y) * (-a.y) == a.y * a.y) by (nonlinear_arith);
    assert((-a.z) * (-a.z) == a.z * a.z) by (nonlinear_arith);
    assert((-a.w) * (-a.w) == a.w * a.w) by (nonlinear_arith);
    assert(sumsq_q(neg_q(a)) == sumsq_q(a));
}

/// The cross product is anti-commutative: swapping the operands negates
/// the result, exactly.
pub proof fn lemma_cross_anticommutative(a: Quad, b: Quad)
    ensures
        cross_q(a, b) == neg_q(cross_q(b, a)),
{
    let s = SCALE as int;
    assert(b.y * a.z - b.z * a.y == -(a.y * b.z - a.z * b.y)) by (nonlinear_arith);
    assert(b.z * a.x - b.x * a.z == -(a.z * b.x - a.x * b.z)) by (nonlinear_arith);
    assert(b.x * a.y - b.y * a.x == -(a.x * b.y - a.y * b.x)) by (nonlinear_arith);
    lemma_div_trunc_neg(a.y * b.z - a.z * b.y, s);
    lemma_div_trunc_neg(a.z * b.x - a.x * b.z, s);
    lemma_div_trunc_neg(a.x * b.y - a.y * b.x, s);
}

/// The equality tolerance, spelled out: tuples whose `x`, `y`, `z` each
/// differ by less than `EPSILON` and whose `w` agrees exactly compare
/// equal; a coordinate off by `EPSILON` or more, or any difference in `w`,
/// makes them unequal.
pub proof fn lemma_equality_tolerance(a: Quad, b: Quad)
    ensures
        (abs_val(a.x - b.x) < EPSILON as int && abs_val(a.y - b.y) < EPSILON as int
            && abs_val(a.z - b.z) < EPSILON as int && a.w == b.w) ==> approx_eq_q(a, b),
        abs_val(a.x - b.x) >= EPSILON as int ==> !approx_eq_q(a, b),
        abs_val(a.y - b.y) >= EPSILON as int ==> !approx_eq_q(a, b),
        abs_val(a.z - b.z) >= EPSILON as int ==> !approx_eq_q(a, b),
        a.w != b.w ==> !approx_eq_q(a, b),
{
}

/// One coordinate of a normalization: dividing `v * s` by `m` with
/// truncation keeps the square of the result within tight bounds of the
/// exact quotient's square.
proof fn lemma_norm_coord(v: int, m: int, s: int)
    requires
        m > 0,
        s > 0,
    ensures
        div_trunc(v * s, m) * div_trunc(v * s, m) * (m * m) <= (v * v) * (s * s),
        div_trunc(v * s, m) * div_trunc(v * s, m) * (m * m) >= (v * v) * (s * s) - 2 * ((abs_val(
            v,
        ) * s) * m),
{
    let c = div_trunc(v * s, m);
    let q = abs_val(c);
    let u = abs_val(v);
    lemma_div_trunc_bounds(v * s, m);
    lemma_abs_mul_pos(v, s);
    assert(q * m <= u * s);
    assert(u * s < (q + 1) * m);
    assert(c == q || c == -q);
    assert(u == v || u == -v);
    assert(c * c == q * q) by (nonlinear_arith)
        requires
            c == q || c == -q,
    ;
    assert(u * u == v * v) by (nonlinear_arith)
        requires
            u == v || u == -v,
    ;
    assert((q * q) * (m * m) <= (u * u) * (s * s)) by (nonlinear_arith)
        requires
            0 <= q,
            0 <= u,
            m > 0,
            s > 0,
            q * m <= u * s,
    ;
    if u * s >= m {
        assert((q * q) * (m * m) >= (u * u) * (s * s) - 2 * ((u * s) * m)) by (nonlinear_arith)
            requires
                u * s < (q + 1) * m,
                u * s >= m,
                q >= 0,
                m > 0,
                u >= 0,
                s > 0,
        ;
    } else {
        assert((q * q) * (m * m) >= (u * u) * (s * s) - 2 * ((u * s) * m)) by (nonlinear_arith)
            requires
                0 <= u * s < m,
                q >= 0,
                m > 0,
        ;
    }
    assert((c * c) * (m * m) == (q * q) * (m * m));
    assert((c * c) * (m * m) <= (v * v) * (s * s));
    assert((c * c) * (m * m) >= (v * v) * (s * s) - 2 * ((u * s) * m));
}

/// Normalizing any tuple whose magnitude is at least a tenth of a unit
/// yields a tuple of magnitude 1.0 within the equality tolerance.  (For
/// far smaller tuples the fixed-point grid is too coarse: the single unit
/// `vector(1, 1, 0)` normalizes to magnitude √2, not 1.)
#[verifier::rlimit(50)]
pub proof fn lemma_norm_magnitude(a: Quad)
    requires
        10 * mag_q(a) >= SCALE as int,
    ensures
        abs_val(mag_q(norm_q(a)) - SCALE as int) < EPSILON as int,
{
    let s = SCALE as int;
    let n = sumsq_q(a);
    let m = mag_q(a);
    assert(a.x * a.x >= 0) by (nonlinear_arith);
    assert(a.y * a.y >= 0) by (nonlinear_arith);
    assert(a.z * a.z >= 0) by (nonlinear_arith);
    assert(a.w * a.w >= 0) by (nonlinear_arith);
    lemma_isqrt_bounds(n as nat);
    assert(m * m <= n);
    assert(n < (m + 1) * (m + 1));
    assert(m >= 100_000);
    lemma_norm_coord(a.x, m, s);
    lemma_norm_coord(a.y, m, s);
    lemma_norm_coord(a.z, m, s);
    lemma_norm_coord(a.w, m, s);
    let cx = div_trunc(a.x * s, m);
    let cy = div_trunc(a.y * s, m);
    let cz = div_trunc(a.z * s, m);
    let cw = div_trunc(a.w * s, m);
    let t = sumsq_q(norm_q(a));
    assert(t == cx * cx + cy * cy + cz * cz + cw * cw);
    assert(t * (m * m) == (cx * cx) * (m * m) + (cy * cy) * (m * m) + (cz * cz) * (m * m) + (cw
        * cw) * (m * m)) by (nonlinear_arith)
        requires
            t == cx * cx + cy * cy + cz * cz + cw * cw,
    ;
    assert(n * (s * s) == (a.x * a.x) * (s * s) + (a.y * a.y) * (s * s) + (a.z * a.z) * (s * s) + (
    a.w * a.w) * (s * s)) by (nonlinear_arith)
        requires
            n == a.x * a.x + a.y * a.y + a.z * a.z + a.w * a.w,
    ;
    // upper end: the truncated coordinates never overshoot
    assert(t * (m * m) <= n * (s * s));
    assert(t * (m * m) < ((s + 10) * (s + 10)) * (m * m)) by (nonlinear_arith)
        requires
            t * (m * m) <= n * (s * s),
            n < (m + 1) * (m + 1),
            m >= 100_000,
            s == 1_000_000,
    ;
    assert(t < (s + 10) * (s + 10)) by (nonlinear_arith)
        requires
            t * (m * m) < ((s + 10) * (s + 10)) * (m * m),
            m > 0,
    ;
    // lower end: each coordinate loses less than one unit of m
    let ux = abs_val(a.x);
    let uy = abs_val(a.y);
    let uz = abs_val(a.z);
    let uw = abs_val(a.w);
    assert(ux * ux == a.x * a.x) by (nonlinear_arith)
        requires
            ux == a.x || ux == -a.x,
    ;
    assert(uy * uy == a.y * a.y) by (nonlinear_arith)
        requires
            uy == a.y || uy == -a.y,
    ;
    assert(uz * uz == a.z * a.z) by (nonlinear_arith)
        requires
            uz == a.z || uz == -a.z,
    ;
    assert(uw * uw == a.w * a.w) by (nonlinear_arith)
        requires
            uw == a.w || uw == -a.w,
    ;
    let asum = ux + uy + uz + uw;
    assert((ux + uy) * (ux + uy) <= 2 * (ux * ux + uy * uy)) by (nonlinear_arith);
    assert((uz + uw) * (uz + uw) <= 2 * (uz * uz + uw * uw)) by (nonlinear_arith);
    assert(asum * asum <= 2 * ((ux + uy) * (ux + uy) + (uz + uw) * (uz + uw)))
        by (nonlinear_arith)
        requires
            asum == (ux + uy) + (uz + uw),
    ;
    assert(asum * asum <= 4 * n);
    assert(asum <= 2 * m + 1) by (nonlinear_arith)
        requires
            asum >= 0,
            asum * asum <= 4 * n,
            n < (m + 1) * (m + 1),
            m > 0,
    ;
    assert((ux * s) * m + (uy * s) * m + (uz * s) * m + (uw * s) * m == (asum * s) * m)
        by (nonlinear_arith)
        requires
            asum == ux + uy + uz + uw,
    ;
    assert(t * (m * m) >= n * (s * s) - 2 * ((asum * s) * m));
    assert(t * (m * m) >= ((s - 9) * (s - 9)) * (m * m)) by (nonlinear_arith)
        requires
            t * (m * m) >= n * (s * s) - 2 * ((asum * s) * m),
            n >= m * m,
            0 <= asum <= 2 * m + 1,
            m >= 1,
            s == 1_000_000,
    ;
    assert(t >= (s - 9) * (s - 9)) by (nonlinear_arith)
        requires
            t * (m * m) >= ((s - 9) * (s - 9)) * (m * m),
            m > 0,
    ;
    // read the two ends back through the square root
    assert(cx * cx >= 0) by (nonlinear_arith);
    assert(cy * cy >= 0) by (nonlinear_arith);
    assert(cz * cz >= 0) by (nonlinear_arith);
    assert(cw * cw >= 0) by (nonlinear_arith);
    let tm = mag_q(norm_q(a));
    lemma_isqrt_bounds(t as nat);
    assert(tm * tm <= t);
    assert(t < (tm + 1) * (tm + 1));
    assert(tm < s + 10) by (nonlinear_arith)
        requires
            tm * tm <= t,
            t < (s + 10) * (s + 10),
            tm >= 0,
            s > 0,
    ;
    assert(tm + 1 > s - 9) by (nonlinear_arith)
        requires
            t < (tm + 1) * (tm + 1),
            t >= (s - 9) * (s - 9),
            tm >= 0,
            s >= 9,
    ;
    assert(abs_val(tm - s) < EPSILON as int);
}

} // verus!
