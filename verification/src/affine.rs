//! 2D affine transforms over exact rationals.
//!
//! An [`Affine`] stores six integer coefficients over one shared positive
//! denominator, so composition is exact integer arithmetic. The library
//! composes child-to-parent throughout: `outer.compose(inner)` is the map
//! that applies `inner` first and `outer` second, and a scene lowers an
//! object by composing `global.compose(local)`.

use vstd::prelude::*;
use crate::scalar::Scalar;
use crate::scalar::fits_i64;

verus! {

/// Largest coefficient magnitude of a transform that stays inside the
/// library's arithmetic budget.
pub const AFFINE_COEFF_LIMIT: i64 = 0x10_0000;

/// Largest denominator of a transform that stays inside the library's
/// arithmetic budget.
pub const AFFINE_DEN_LIMIT: i64 = 0x100;

/// A 2D affine map: the matrix
///
/// ```text
/// [ a/den  c/den  e/den ]
/// [ b/den  d/den  f/den ]
/// ```
///
/// sending a point `(x, y)` to
/// `((a*x + c*y + e) / den, (b*x + d*y + f) / den)`.
#[derive(Clone, Copy, Debug, PartialEq, Eq, Structural)]
pub struct Affine {
    pub a: i64,
    pub b: i64,
    pub c: i64,
    pub d: i64,
    pub e: i64,
    pub f: i64,
    pub den: i64,
}

/// The unbounded mathematical counterpart of [`Affine`], used to state
/// the transform algebra without overflow side conditions.
pub struct AffineModel {
    pub a: int,
    pub b: int,
    pub c: int,
    pub d: int,
    pub e: int,
    pub f: int,
    pub den: int,
}

/// A point in homogeneous coordinates: the position `(x/w, y/w)`.
pub struct PointModel {
    pub x: int,
    pub y: int,
    pub w: int,
}

impl View for Affine {
    type V = AffineModel;

    open spec fn view(&self) -> AffineModel {
        AffineModel {
            a: self.a as int,
            b: self.b as int,
            c: self.c as int,
            d: self.d as int,
            e: self.e as int,
            f: self.f as int,
            den: self.den as int,
        }
    }
}

/// The matrix product `m1 * m2`: the map that applies `m2` first and
/// `m1` second.
pub open spec fn compose_model(m1: AffineModel, m2: AffineModel) -> AffineModel {
    AffineModel {
        a: m1.a * m2.a + m1.c * m2.b,
        b: m1.b * m2.a + m1.d * m2.b,
        c: m1.a * m2.c + m1.c * m2.d,
        d: m1.b * m2.c + m1.d * m2.d,
        e: m1.a * m2.e + m1.c * m2.f + m1.e * m2.den,
        f: m1.b * m2.e + m1.d * m2.f + m1.f * m2.den,
        den: m1.den * m2.den,
    }
}

/// The image of the homogeneous point `p` under the map `m`.
pub open spec fn apply_model(m: AffineModel, p: PointModel) -> PointModel {
    PointModel {
        x: m.a * p.x + m.c * p.y + m.e * p.w,
        y: m.b * p.x + m.d * p.y + m.f * p.w,
        w: m.den * p.w,
    }
}

/// Both homogeneous points denote the same position in the plane.
pub open spec fn point_same_value(p: PointModel, q: PointModel) -> bool {
    &&& p.x * q.w == q.x * p.w
    &&& p.y * q.w == q.y * p.w
}

/// Every coefficient of `m` has magnitude at most `coeff` and the
/// denominator lies in `(0, den]`.
pub open spec fn model_bounded(m: AffineModel, coeff: int, den: int) -> bool {
    &&& -coeff <= m.a <= coeff
    &&& -coeff <= m.b <= coeff
    &&& -coeff <= m.c <= coeff
    &&& -coeff <= m.d <= coeff
    &&& -coeff <= m.e <= coeff
    &&& -coeff <= m.f <= coeff
    &&& 0 < m.den <= den
}

/// A two-term dot product stays inside `i64` at every step.
pub open spec fn dot2_fits(x1: int, x2: int, y1: int, y2: int) -> bool {
    &&& fits_i64(x1 * x2)
    &&& fits_i64(y1 * y2)
    &&& fits_i64(x1 * x2 + y1 * y2)
}

/// A three-term dot product stays inside `i64` at every step.
pub open spec fn dot3_fits(x1: int, x2: int, y1: int, y2: int, z1: int, z2: int) -> bool {
    &&& fits_i64(x1 * x2)
    &&& fits_i64(y1 * y2)
    &&& fits_i64(x1 * x2 + y1 * y2)
    &&& fits_i64(z1 * z2)
    &&& fits_i64(x1 * x2 + y1 * y2 + z1 * z2)
}

impl Affine {
    /// The shared denominator is positive.
    pub open spec fn wf(self) -> bool {
        self.den > 0
    }

    /// The transform lies within the library's arithmetic budget, which
    /// guarantees that composing two such transforms, and composing the
    /// result once more with a text-alignment translation, stays inside
    /// `i64`.
    pub open spec fn in_budget(self) -> bool {
        model_bounded(self@, AFFINE_COEFF_LIMIT as int, AFFINE_DEN_LIMIT as int)
    }

    /// Every intermediate value of `self.compose(other)` fits in an
    /// `i64`.
    pub open spec fn compose_fits(self, other: Affine) -> bool {
        &&& dot2_fits(self.a as int, other.a as int, self.c as int, other.b as int)
        &&& dot2_fits(self.b as int, other.a as int, self.d as int, other.b as int)
        &&& dot2_fits(self.a as int, other.c as int, self.c as int, other.d as int)
        &&& dot2_fits(self.b as int, other.c as int, self.d as int, other.d as int)
        &&& dot3_fits(
            self.a as int,
            other.e as int,
            self.c as int,
            other.f as int,
            self.e as int,
            other.den as int,
        )
        &&& dot3_fits(
            self.b as int,
            other.e as int,
            self.d as int,
            other.f as int,
            self.f as int,
            other.den as int,
        )
        &&& fits_i64((self.den as int) * (other.den as int))
    }

    /// The identity map.
    pub fn identity() -> (r: Affine)
        ensures
            r == (Affine { a: 1i64, b: 0i64, c: 0i64, d: 1i64, e: 0i64, f: 0i64, den: 1i64 }),
    {
        Affine { a: 1, b: 0, c: 0, d: 1, e: 0, f: 0, den: 1 }
    }

    /// Exact translation by `(x, y)` stays inside `i64`.
    pub open spec fn translate_fits(x: Scalar, y: Scalar) -> bool {
        &&& fits_i64(x.den * y.den)
        &&& fits_i64(x.num * y.den)
        &&& fits_i64(y.num * x.den)
    }

    /// The map that moves every point by `(x, y)`.
    pub fn translate(x: Scalar, y: Scalar) -> (r: Affine)
        requires
            x.wf(),
            y.wf(),
            Affine::translate_fits(x, y),
        ensures
            r.a == x.den * y.den,
            r.b == 0,
            r.c == 0,
            r.d == x.den * y.den,
            r.e == x.num * y.den,
            r.f == y.num * x.den,
            r.den == x.den * y.den,
            r.wf(),
    {
        proof {
            crate::scalar::lemma_pos_mul_pos(x.den as int, y.den as int);
        }
        let den: i64 = x.den * y.den;
        Affine { a: den, b: 0, c: 0, d: den, e: x.num * y.den, f: y.num * x.den, den }
    }

    /// The map that scales x-coordinates by `sx` and y-coordinates by
    /// `sy` about the origin.
    pub fn scale_xy(sx: Scalar, sy: Scalar) -> (r: Affine)
        requires
            sx.wf(),
            sy.wf(),
            Affine::translate_fits(sx, sy),
        ensures
            r.a == sx.num * sy.den,
            r.b == 0,
            r.c == 0,
            r.d == sy.num * sx.den,
            r.e == 0,
            r.f == 0,
            r.den == sx.den * sy.den,
            r.wf(),
    {
        proof {
            crate::scalar::lemma_pos_mul_pos(sx.den as int, sy.den as int);
        }
        Affine {
            a: sx.num * sy.den,
            b: 0,
            c: 0,
            d: sy.num * sx.den,
            e: 0,
            f: 0,
            den: sx.den * sy.den,
        }
    }

    /// The exact matrix product `self * other`: the map that applies
    /// `other` first and `self` second.
    pub fn compose(self, other: Affine) -> (r: Affine)
        requires
            self.wf(),
            other.wf(),
            self.compose_fits(other),
        ensures
            r == compose_affine(self, other),
            r@ == compose_model(self@, other@),
            r.wf(),
    {
        proof {
            crate::scalar::lemma_pos_mul_pos(self.den as int, other.den as int);
        }
        Affine {
            a: self.a * other.a + self.c * other.b,
            b: self.b * other.a + self.d * other.b,
            c: self.a * other.c + self.c * other.d,
            d: self.b * other.c + self.d * other.d,
            e: self.a * other.e + self.c * other.f + self.e * other.den,
            f: self.b * other.e + self.d * other.f + self.f * other.den,
            den: self.den * other.den,
        }
    }

    /// The transform lies within the library's arithmetic budget.
    pub fn in_budget_check(&self) -> (ok: bool)
        ensures
            ok == self.in_budget(),
    {
        -AFFINE_COEFF_LIMIT <= self.a && self.a <= AFFINE_COEFF_LIMIT
            && -AFFINE_COEFF_LIMIT <= self.b && self.b <= AFFINE_COEFF_LIMIT
            && -AFFINE_COEFF_LIMIT <= self.c && self.c <= AFFINE_COEFF_LIMIT
            && -AFFINE_COEFF_LIMIT <= self.d && self.d <= AFFINE_COEFF_LIMIT
            && -AFFINE_COEFF_LIMIT <= self.e && self.e <= AFFINE_COEFF_LIMIT
            && -AFFINE_COEFF_LIMIT <= self.f && self.f <= AFFINE_COEFF_LIMIT
            && 0 < self.den && self.den <= AFFINE_DEN_LIMIT
    }
}

/// The value `self.compose(other)` returns. Exact whenever
/// `self.compose_fits(other)` holds, since then no cast truncates.
pub open spec fn compose_affine(m1: Affine, m2: Affine) -> Affine {
    Affine {
        a: (m1.a * m2.a + m1.c * m2.b) as i64,
        b: (m1.b * m2.a + m1.d * m2.b) as i64,
        c: (m1.a * m2.c + m1.c * m2.d) as i64,
        d: (m1.b * m2.c + m1.d * m2.d) as i64,
        e: (m1.a * m2.e + m1.c * m2.f + m1.e * m2.den) as i64,
        f: (m1.b * m2.e + m1.d * m2.f + m1.f * m2.den) as i64,
        den: (m1.den * m2.den) as i64,
    }
}

/// Coefficient bound of the product of two budgeted transforms.
pub open spec fn composed_coeff_bound() -> int {
    2 * ((AFFINE_COEFF_LIMIT as int) * (AFFINE_COEFF_LIMIT as int)) + (AFFINE_COEFF_LIMIT as int)
        * (AFFINE_DEN_LIMIT as int)
}

/// Denominator bound of the product of two budgeted transforms.
pub open spec fn composed_den_bound() -> int {
    (AFFINE_DEN_LIMIT as int) * (AFFINE_DEN_LIMIT as int)
}

/// Composing two budgeted transforms stays inside `i64`, and the result
/// obeys the derived bounds.
pub proof fn lemma_budget_compose_fits(m1: Affine, m2: Affine)
    requires
        m1.in_budget(),
        m2.in_budget(),
    ensures
        m1.compose_fits(m2),
        model_bounded(compose_model(m1@, m2@), composed_coeff_bound(), composed_den_bound()),
{
    lemma_compose_fits(
        m1,
        m2,
        AFFINE_COEFF_LIMIT as int,
        AFFINE_DEN_LIMIT as int,
        AFFINE_COEFF_LIMIT as int,
        AFFINE_DEN_LIMIT as int,
    );
}

/// A product of values bounded in magnitude is bounded by the product of
/// the bounds.
pub proof fn lemma_abs_mul_le(x: int, y: int, a: int, b: int)
    by (nonlinear_arith)
    requires
        -a <= x <= a,
        -b <= y <= b,
    ensures
        -(a * b) <= x * y <= a * b,
{
}

/// Composing two transforms that satisfy coefficient budgets stays
/// inside `i64` at every step, and the result satisfies the derived
/// budget `2*c1*c2 + c1*d2`.
pub proof fn lemma_compose_fits(m1: Affine, m2: Affine, c1: int, d1: int, c2: int, d2: int)
    requires
        model_bounded(m1@, c1, d1),
        model_bounded(m2@, c2, d2),
        2 * (c1 * c2) + c1 * d2 <= i64::MAX,
        d1 * d2 <= i64::MAX,
    ensures
        m1.compose_fits(m2),
        model_bounded(compose_model(m1@, m2@), 2 * (c1 * c2) + c1 * d2, d1 * d2),
{
    lemma_abs_mul_le(m1.a as int, m2.a as int, c1, c2);
    lemma_abs_mul_le(m1.c as int, m2.b as int, c1, c2);
    lemma_abs_mul_le(m1.b as int, m2.a as int, c1, c2);
    lemma_abs_mul_le(m1.d as int, m2.b as int, c1, c2);
    lemma_abs_mul_le(m1.a as int, m2.c as int, c1, c2);
    lemma_abs_mul_le(m1.c as int, m2.d as int, c1, c2);
    lemma_abs_mul_le(m1.b as int, m2.c as int, c1, c2);
    lemma_abs_mul_le(m1.d as int, m2.d as int, c1, c2);
    lemma_abs_mul_le(m1.a as int, m2.e as int, c1, c2);
    lemma_abs_mul_le(m1.c as int, m2.f as int, c1, c2);
    lemma_abs_mul_le(m1.e as int, m2.den as int, c1, d2);
    lemma_abs_mul_le(m1.b as int, m2.e as int, c1, c2);
    lemma_abs_mul_le(m1.d as int, m2.f as int, c1, c2);
    lemma_abs_mul_le(m1.f as int, m2.den as int, c1, d2);
    lemma_abs_mul_le(m1.den as int, m2.den as int, d1, d2);
    crate::scalar::lemma_pos_mul_pos(m1.den as int, m2.den as int);
}

/// Multiplication by a factor distributes over a three-term dot
/// product.
pub proof fn lemma_scale_dot3(k: int, u: int, v: int, w: int, x: int, y: int, z: int)
    ensures
        k * (u * x + v * y + w * z) == (k * u) * x + (k * v) * y + (k * w) * z,
{
    vstd::arithmetic::mul::lemma_mul_is_distributive_add(k, u * x + v * y, w * z);
    vstd::arithmetic::mul::lemma_mul_is_distributive_add(k, u * x, v * y);
    vstd::arithmetic::mul::lemma_mul_is_associative(k, u, x);
    vstd::arithmetic::mul::lemma_mul_is_associative(k, v, y);
    vstd::arithmetic::mul::lemma_mul_is_associative(k, w, z);
}

/// Multiplication associates.
pub proof fn lemma_mul_assoc(a: int, b: int, c: int)
    ensures
        a * (b * c) == (a * b) * c,
{
    vstd::arithmetic::mul::lemma_mul_is_associative(a, b, c);
}

/// A two-term sum distributes over a common factor.
pub proof fn lemma_sum2_scale(a: int, b: int, x: int)
    ensures
        (a + b) * x == a * x + b * x,
{
    vstd::arithmetic::mul::lemma_mul_is_distributive_add_other_way(x, a, b);
}

/// A three-term sum distributes over a common factor.
pub proof fn lemma_sum3_scale(a: int, b: int, c: int, x: int)
    ensures
        (a + b + c) * x == a * x + b * x + c * x,
{
    vstd::arithmetic::mul::lemma_mul_is_distributive_add_other_way(x, a + b, c);
    vstd::arithmetic::mul::lemma_mul_is_distributive_add_other_way(x, a, b);
}

/// Applying a composed transform to a point gives the same point as
/// applying the right-hand transform first and the left-hand transform
/// second: lowering through `outer.compose(inner)` equals lowering
/// through `inner` and then `outer`.
pub proof fn lemma_compose_then_apply(m1: AffineModel, m2: AffineModel, p: PointModel)
    ensures
        apply_model(compose_model(m1, m2), p) == apply_model(m1, apply_model(m2, p)),
{
    lemma_scale_dot3(m1.a, m2.a, m2.c, m2.e, p.x, p.y, p.w);
    lemma_scale_dot3(m1.b, m2.a, m2.c, m2.e, p.x, p.y, p.w);
    lemma_scale_dot3(m1.c, m2.b, m2.d, m2.f, p.x, p.y, p.w);
    lemma_scale_dot3(m1.d, m2.b, m2.d, m2.f, p.x, p.y, p.w);
    lemma_mul_assoc(m1.e, m2.den, p.w);
    lemma_mul_assoc(m1.f, m2.den, p.w);
    lemma_mul_assoc(m1.den, m2.den, p.w);
    lemma_sum2_scale(m1.a * m2.a, m1.c * m2.b, p.x);
    lemma_sum2_scale(m1.b * m2.a, m1.d * m2.b, p.x);
    lemma_sum2_scale(m1.a * m2.c, m1.c * m2.d, p.y);
    lemma_sum2_scale(m1.b * m2.c, m1.d * m2.d, p.y);
    lemma_sum3_scale(m1.a * m2.e, m1.c * m2.f, m1.e * m2.den, p.w);
    lemma_sum3_scale(m1.b * m2.e, m1.d * m2.f, m1.f * m2.den, p.w);
}

} // verus!
