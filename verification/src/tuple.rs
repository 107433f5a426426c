//! The homogeneous-coordinate tuple and its algebra.
//!
//! Coordinates are fixed-point: an `i64` field counts units of one
//! millionth, so the value 1.0 is stored as `SCALE`.  A tuple with
//! `w == SCALE` is a point, one with `w == 0` is a vector; other `w` values
//! can arise from arithmetic and carry no point/vector meaning.
//!
//! Every operation's contract is stated over `Quad`, the mathematical view
//! of a tuple as four unbounded integers.

use vstd::prelude::*;
use crate::arith::{abs_val, div_trunc, div_trunc_i64, isqrt, isqrt_u64, lemma_isqrt_pos};

verus! {

/// Units per 1.0: every coordinate counts millionths.
pub const SCALE: i64 = 1_000_000;

/// Absolute tolerance of the approximate equality on `x`, `y`, `z`:
/// ten units, that is 0.00001.
pub const EPSILON: i64 = 10;

/// Largest coordinate magnitude (1500.0) accepted by `dot` and `cross`,
/// keeping their products and sums inside `i64`.
pub const COORD_LIMIT: i64 = 1_500_000_000;

/// The mathematical view of a tuple: four unbounded integers, still in
/// units of one millionth.
pub ghost struct Quad {
    pub x: int,
    pub y: int,
    pub z: int,
    pub w: int,
}

/// View of the point factory's result.
pub open spec fn point_q(x: int, y: int, z: int) -> Quad {
    Quad { x, y, z, w: SCALE as int }
}

/// View of the vector factory's result.
pub open spec fn vector_q(x: int, y: int, z: int) -> Quad {
    Quad { x, y, z, w: 0 }
}

/// A point is exactly `w == SCALE` (1.0); no tolerance applies to `w`.
pub open spec fn is_point_q(a: Quad) -> bool {
    a.w == SCALE as int
}

/// A vector is exactly `w == 0` (0.0); no tolerance applies to `w`.
pub open spec fn is_vector_q(a: Quad) -> bool {
    a.w == 0
}

/// Approximate equality: `x`, `y`, `z` within `EPSILON`, `w` exact.
pub open spec fn approx_eq_q(a: Quad, b: Quad) -> bool {
    &&& abs_val(a.x - b.x) < EPSILON as int
    &&& abs_val(a.y - b.y) < EPSILON as int
    &&& abs_val(a.z - b.z) < EPSILON as int
    &&& a.w == b.w
}

/// Component-wise sum of all four fields.
pub open spec fn add_q(a: Quad, b: Quad) -> Quad {
    Quad { x: a.x + b.x, y: a.y + b.y, z: a.z + b.z, w: a.w + b.w }
}

/// Component-wise difference of all four fields.
pub open spec fn sub_q(a: Quad, b: Quad) -> Quad {
    Quad { x: a.x - b.x, y: a.y - b.y, z: a.z - b.z, w: a.w - b.w }
}

/// Component-wise sign flip of all four fields.
pub open spec fn neg_q(a: Quad) -> Quad {
    Quad { x: -a.x, y: -a.y, z: -a.z, w: -a.w }
}

/// Scalar multiplication: each field times `k`, rescaled; the quotient by
/// `SCALE` rounds toward zero, as the executable division does.
pub open spec fn scale_q(a: Quad, k: int) -> Quad {
    Quad {
        x: div_trunc(a.x * k, SCALE as int),
        y: div_trunc(a.y * k, SCALE as int),
        z: div_trunc(a.z * k, SCALE as int),
        w: div_trunc(a.w * k, SCALE as int),
    }
}

/// Scalar division: each field divided by `k`, rescaled, rounding toward
/// zero.
pub open spec fn divide_q(a: Quad, k: int) -> Quad {
    Quad {
        x: div_trunc(a.x * SCALE, k),
        y: div_trunc(a.y * SCALE, k),
        z: div_trunc(a.z * SCALE, k),
        w: div_trunc(a.w * SCALE, k),
    }
}

/// Sum of the squares of all four fields, in squared units.
pub open spec fn sumsq_q(a: Quad) -> int {
    a.x * a.x + a.y * a.y + a.z * a.z + a.w * a.w
}

/// Magnitude: the integer square root of the sum of squares.  Since the
/// fields are in units, the sum of squares is in squared units and its
/// root is in units again.
pub open spec fn mag_q(a: Quad) -> int {
    isqrt(sumsq_q(a) as nat) as int
}

/// Normalization: each field divided by the magnitude, rescaled so that
/// the result's magnitude is `SCALE` (1.0) up to rounding.
pub open spec fn norm_q(a: Quad) -> Quad {
    Quad {
        x: div_trunc(a.x * SCALE, mag_q(a)),
        y: div_trunc(a.y * SCALE, mag_q(a)),
        z: div_trunc(a.z * SCALE, mag_q(a)),
        w: div_trunc(a.w * SCALE, mag_q(a)),
    }
}

/// Dot product: sum of the pairwise field products, rescaled.
pub open spec fn dot_q(a: Quad, b: Quad) -> int {
    div_trunc(a.x * b.x + a.y * b.y + a.z * b.z + a.w * b.w, SCALE as int)
}

/// Cross product of the `x`, `y`, `z` components by the right-hand rule;
/// the result is always a vector (`w == 0`), whatever the operands' `w`.
pub open spec fn cross_q(a: Quad, b: Quad) -> Quad {
    Quad {
        x: div_trunc(a.y * b.z - a.z * b.y, SCALE as int),
        y: div_trunc(a.z * b.x - a.x * b.z, SCALE as int),
        z: div_trunc(a.x * b.y - a.y * b.x, SCALE as int),
        w: 0,
    }
}

/// The four component sums stay inside `i64`.
pub open spec fn add_in_range(a: Quad, b: Quad) -> bool {
    &&& i64::MIN <= a.x + b.x <= i64::MAX
    &&& i64::MIN <= a.y + b.y <= i64::MAX
    &&& i64::MIN <= a.z + b.z <= i64::MAX
    &&& i64::MIN <= a.w + b.w <= i64::MAX
}

/// The four component differences stay inside `i64`.
pub open spec fn sub_in_range(a: Quad, b: Quad) -> bool {
    &&& i64::MIN <= a.x - b.x <= i64::MAX
    &&& i64::MIN <= a.y - b.y <= i64::MAX
    &&& i64::MIN <= a.z - b.z <= i64::MAX
    &&& i64::MIN <= a.w - b.w <= i64::MAX
}

/// The four negated components stay inside `i64`.
pub open spec fn neg_in_range(a: Quad) -> bool {
    &&& i64::MIN < a.x
    &&& i64::MIN < a.y
    &&& i64::MIN < a.z
    &&& i64::MIN < a.w
}

/// The four component products with `k` stay strictly inside `i64`.
pub open spec fn scale_in_range(a: Quad, k: int) -> bool {
    &&& -(i64::MAX as int) <= a.x * k <= i64::MAX
    &&& -(i64::MAX as int) <= a.y * k <= i64::MAX
    &&& -(i64::MAX as int) <= a.z * k <= i64::MAX
    &&& -(i64::MAX as int) <= a.w * k <= i64::MAX
}

/// All four fields within `COORD_LIMIT` in magnitude.
pub open spec fn bounded_q(a: Quad) -> bool {
    &&& abs_val(a.x) <= COORD_LIMIT as int
    &&& abs_val(a.y) <= COORD_LIMIT as int
    &&& abs_val(a.z) <= COORD_LIMIT as int
    &&& abs_val(a.w) <= COORD_LIMIT as int
}

/// A four-component homogeneous coordinate in fixed-point units of one
/// millionth.
#[derive(Clone, Copy, Debug)]
pub struct Tuple {
    pub x: i64,
    pub y: i64,
    pub z: i64,
    pub w: i64,
}

impl View for Tuple {
    type V = Quad;

    open spec fn view(&self) -> Quad {
        Quad { x: self.x as int, y: self.y as int, z: self.z as int, w: self.w as int }
    }
}

impl Tuple {
    /// Generic four-field constructor; no constraint on the inputs.
    pub fn new(x: i64, y: i64, z: i64, w: i64) -> (r: Tuple)
        ensures
            r@ == (Quad { x: x as int, y: y as int, z: z as int, w: w as int }),
    {
        Tuple { x, y, z, w }
    }

    /// A point: `w` set to `SCALE` (1.0).
    pub fn point(x: i64, y: i64, z: i64) -> (r: Tuple)
        ensures
            r@ == point_q(x as int, y as int, z as int),
    {
        Tuple { x, y, z, w: SCALE }
    }

    /// A vector: `w` set to 0 (0.0).
    pub fn vector(x: i64, y: i64, z: i64) -> (r: Tuple)
        ensures
            r@ == vector_q(x as int, y as int, z as int),
    {
        Tuple { x, y, z, w: 0 }
    }

    /// True iff `w` is exactly `SCALE` (1.0).
    pub fn is_point(&self) -> (r: bool)
        ensures
            r == is_point_q(self@),
    {
        self.w == SCALE
    }

    /// True iff `w` is exactly 0 (0.0).
    pub fn is_vector(&self) -> (r: bool)
        ensures
            r == is_vector_q(self@),
    {
        self.w == 0
    }

    /// Approximate equality: `x`, `y`, `z` within `EPSILON`, `w` exact.
    /// Total: no input is rejected.
    pub fn approx_eq(&self, other: &Tuple) -> (r: bool)
        ensures
            r == approx_eq_q(self@, other@),
    {
        let dx: i128 = self.x as i128 - other.x as i128;
        let dy: i128 = self.y as i128 - other.y as i128;
        let dz: i128 = self.z as i128 - other.z as i128;
        let adx: i128 = if dx < 0 { -dx } else { dx };
        let ady: i128 = if dy < 0 { -dy } else { dy };
        let adz: i128 = if dz < 0 { -dz } else { dz };
        adx < EPSILON as i128 && ady < EPSILON as i128 && adz < EPSILON as i128
            && self.w == other.w
    }

    /// Component-wise sum of all four fields.  Adding a point and a vector
    /// yields a point; two vectors yield a vector; two points yield
    /// `w == 2 * SCALE`, which is not rejected.
    pub fn add(self, other: Tuple) -> (r: Tuple)
        requires
            add_in_range(self@, other@),
        ensures
            r@ == add_q(self@, other@),
    {
        Tuple {
            x: self.x + other.x,
            y: self.y + other.y,
            z: self.z + other.z,
            w: self.w + other.w,
        }
    }

    /// Component-wise difference: point − point is a vector, point −
    /// vector a point, vector − vector a vector.
    pub fn sub(self, other: Tuple) -> (r: Tuple)
        requires
            sub_in_range(self@, other@),
        ensures
            r@ == sub_q(self@, other@),
    {
        Tuple {
            x: self.x - other.x,
            y: self.y - other.y,
            z: self.z - other.z,
            w: self.w - other.w,
        }
    }

    /// Component-wise sign flip of all four fields, `w` included.
    pub fn negate(self) -> (r: Tuple)
        requires
            neg_in_range(self@),
        ensures
            r@ == neg_q(self@),
    {
        Tuple { x: -self.x, y: -self.y, z: -self.z, w: -self.w }
    }

    /// Scalar multiplication by `k` (in units: 3.5 is `3_500_000`), `w`
    /// included.
    pub fn scale(self, k: i64) -> (r: Tuple)
        requires
            scale_in_range(self@, k as int),
        ensures
            r@ == scale_q(self@, k as int),
    {
        Tuple {
            x: div_trunc_i64(self.x * k, SCALE),
            y: div_trunc_i64(self.y * k, SCALE),
            z: div_trunc_i64(self.z * k, SCALE),
            w: div_trunc_i64(self.w * k, SCALE),
        }
    }

    /// Scalar division by a nonzero `k` (in units), `w` included.  The
    /// zero divisor, which floating point would turn into infinities, is
    /// excluded here.
    pub fn divide(self, k: i64) -> (r: Tuple)
        requires
            k != 0,
            k != i64::MIN,
            scale_in_range(self@, SCALE as int),
        ensures
            r@ == divide_q(self@, k as int),
    {
        Tuple {
            x: div_trunc_i64(self.x * SCALE, k),
            y: div_trunc_i64(self.y * SCALE, k),
            z: div_trunc_i64(self.z * SCALE, k),
            w: div_trunc_i64(self.w * SCALE, k),
        }
    }

    /// Magnitude: the Euclidean norm of the full four-tuple, rounded down
    /// to whole units.
    pub fn mag(&self) -> (r: i64)
        requires
            sumsq_q(self@) <= i64::MAX,
        ensures
            r == mag_q(self@),
            r >= 0,
    {
        proof {
            assert(self@.x * self@.x >= 0) by (nonlinear_arith);
            assert(self@.y * self@.y >= 0) by (nonlinear_arith);
            assert(self@.z * self@.z >= 0) by (nonlinear_arith);
            assert(self@.w * self@.w >= 0) by (nonlinear_arith);
        }
        let xx: i64 = self.x * self.x;
        let yy: i64 = self.y * self.y;
        let zz: i64 = self.z * self.z;
        let ww: i64 = self.w * self.w;
        let s: i64 = xx + yy + zz + ww;
        let rt: u64 = isqrt_u64(s as u64);
        proof {
            assert(rt as int <= 3_037_000_499int) by (nonlinear_arith)
                requires
                    rt as int * rt as int <= 0x7fff_ffff_ffff_ffffint,
                    rt as int >= 0,
            ;
        }
        rt as i64
    }

    /// Unit vector in the direction of `self`: each field divided by the
    /// magnitude, rescaled.  The zero tuple, which floating point would
    /// turn into non-finite fields, is excluded here.
    pub fn norm(&self) -> (r: Tuple)
        requires
            0 < sumsq_q(self@) <= i64::MAX,
        ensures
            r@ == norm_q(self@),
    {
        let m: i64 = self.mag();
        proof {
            assert(self@.x * self@.x >= 0) by (nonlinear_arith);
            assert(self@.y * self@.y >= 0) by (nonlinear_arith);
            assert(self@.z * self@.z >= 0) by (nonlinear_arith);
            assert(self@.w * self@.w >= 0) by (nonlinear_arith);
            lemma_isqrt_pos(sumsq_q(self@) as nat);
            assert(m >= 1);
            assert(abs_val(self@.x) <= 3_037_000_499int) by (nonlinear_arith)
                requires
                    self@.x * self@.x <= 0x7fff_ffff_ffff_ffffint,
            ;
            assert(abs_val(self@.y) <= 3_037_000_499int) by (nonlinear_arith)
                requires
                    self@.y * self@.y <= 0x7fff_ffff_ffff_ffffint,
            ;
            assert(abs_val(self@.z) <= 3_037_000_499int) by (nonlinear_arith)
                requires
                    self@.z * self@.z <= 0x7fff_ffff_ffff_ffffint,
            ;
            assert(abs_val(self@.w) <= 3_037_000_499int) by (nonlinear_arith)
                requires
                    self@.w * self@.w <= 0x7fff_ffff_ffff_ffffint,
            ;
        }
        Tuple {
            x: div_trunc_i64(self.x * SCALE, m),
            y: div_trunc_i64(self.y * SCALE, m),
            z: div_trunc_i64(self.z * SCALE, m),
            w: div_trunc_i64(self.w * SCALE, m),
        }
    }

    /// Dot product: sum of the pairwise field products across all four
    /// components, rescaled.
    pub fn dot(&self, other: &Tuple) -> (r: i64)
        requires
            bounded_q(self@),
            bounded_q(other@),
        ensures
            r == dot_q(self@, other@),
    {
        proof {
            lemma_bounded_product(self@.x, other@.x);
            lemma_bounded_product(self@.y, other@.y);
            lemma_bounded_product(self@.z, other@.z);
            lemma_bounded_product(self@.w, other@.w);
        }
        let s: i64 = self.x * other.x + self.y * other.y + self.z * other.z
            + self.w * other.w;
        div_trunc_i64(s, SCALE)
    }

    /// Cross product of the `x`, `y`, `z` components by the right-hand
    /// rule; the result is always a vector.
    pub fn cross(&self, other: &Tuple) -> (r: Tuple)
        requires
            bounded_q(self@),
            bounded_q(other@),
        ensures
            r@ == cross_q(self@, other@),
    {
        proof {
            lemma_bounded_product(self@.y, other@.z);
            lemma_bounded_product(self@.z, other@.y);
            lemma_bounded_product(self@.z, other@.x);
            lemma_bounded_product(self@.x, other@.z);
            lemma_bounded_product(self@.x, other@.y);
            lemma_bounded_product(self@.y, other@.x);
        }
        Tuple {
            x: div_trunc_i64(self.y * other.z - self.z * other.y, SCALE),
            y: div_trunc_i64(self.z * other.x - self.x * other.z, SCALE),
            z: div_trunc_i64(self.x * other.y - self.y * other.x, SCALE),
            w: 0,
        }
    }
}

/// Product of two coordinates within `COORD_LIMIT` stays well inside `i64`.
proof fn lemma_bounded_product(a: int, b: int)
    requires
        abs_val(a) <= COORD_LIMIT as int,
        abs_val(b) <= COORD_LIMIT as int,
    ensures
        -2_250_000_000_000_000_000 <= a * b <= 2_250_000_000_000_000_000,
{
    assert(-2_250_000_000_000_000_000 <= a * b <= 2_250_000_000_000_000_000)
        by (nonlinear_arith)
        requires
            -1_500_000_000 <= a <= 1_500_000_000,
            -1_500_000_000 <= b <= 1_500_000_000,
    ;
}

/// `==` on tuples is the approximate comparison: tolerant on `x`, `y`,
/// `z`, exact on `w`.
impl PartialEq for Tuple {
    fn eq(&self, other: &Tuple) -> (r: bool) {
        self.approx_eq(other)
    }
}

impl vstd::std_specs::cmp::PartialEqSpecImpl for Tuple {
    open spec fn obeys_eq_spec() -> bool {
        true
    }

    open spec fn eq_spec(&self, other: &Tuple) -> bool {
        approx_eq_q(self@, other@)
    }
}

} // verus!
