//! Exact rational scalars.
//!
//! Every coordinate, radius, gradient offset and opacity in the library
//! is a [`Scalar`]: an integer numerator over a positive integer
//! denominator. Arithmetic on scalars is exact; preconditions rule out
//! the inputs whose exact result would not fit in an `i64`.

use vstd::prelude::*;

verus! {

/// Largest numerator magnitude of a coordinate that stays inside the
/// library's arithmetic budget (about one million device units).
pub const COORD_NUM_LIMIT: i64 = 0x10_0000;

/// Largest denominator of a coordinate that stays inside the library's
/// arithmetic budget (a resolution of one sixteenth of a unit).
pub const COORD_DEN_LIMIT: i64 = 16;

/// Holds when the mathematical integer `x` fits in an `i64`.
pub open spec fn fits_i64(x: int) -> bool {
    i64::MIN <= x <= i64::MAX
}

/// An exact rational scalar: the value `num / den`.
///
/// Well-formed scalars keep `den` positive, so every rational has a
/// definite sign and cross-multiplication decides value equality.
#[derive(Clone, Copy, Debug, PartialEq, Eq, Structural)]
pub struct Scalar {
    pub num: i64,
    pub den: i64,
}

impl Scalar {
    /// The denominator is positive.
    pub open spec fn wf(self) -> bool {
        self.den > 0
    }

    /// Both scalars denote the same rational number.
    pub open spec fn same_value(self, other: Scalar) -> bool {
        self.num * other.den == other.num * self.den
    }

    /// This scalar denotes a strictly smaller rational than `other`.
    /// Meaningful for well-formed scalars, whose denominators are
    /// positive.
    pub open spec fn lt(self, other: Scalar) -> bool {
        self.num * other.den < other.num * self.den
    }

    /// The scalar lies within the coordinate budget, which keeps all
    /// derived arithmetic in the library inside `i64`.
    pub open spec fn in_budget(self) -> bool {
        &&& -COORD_NUM_LIMIT <= self.num <= COORD_NUM_LIMIT
        &&& 0 < self.den <= COORD_DEN_LIMIT
    }

    /// The value [`Scalar::add`] returns; exact when the addition fits.
    pub open spec fn add_spec(self, other: Scalar) -> Scalar {
        Scalar {
            num: (self.num * other.den + other.num * self.den) as i64,
            den: (self.den * other.den) as i64,
        }
    }

    /// The value [`Scalar::sub`] returns; exact when the subtraction fits.
    pub open spec fn sub_spec(self, other: Scalar) -> Scalar {
        Scalar {
            num: (self.num * other.den - other.num * self.den) as i64,
            den: (self.den * other.den) as i64,
        }
    }

    /// The value [`Scalar::half`] returns; exact when the denominator fits.
    pub open spec fn half_spec(self) -> Scalar {
        Scalar { num: self.num, den: (2 * self.den) as i64 }
    }

    /// Exact addition stays inside `i64`.
    pub open spec fn add_fits(self, other: Scalar) -> bool {
        &&& fits_i64(self.num * other.den)
        &&& fits_i64(other.num * self.den)
        &&& fits_i64(self.num * other.den + other.num * self.den)
        &&& fits_i64(self.den * other.den)
    }

    /// Exact subtraction stays inside `i64`.
    pub open spec fn sub_fits(self, other: Scalar) -> bool {
        &&& fits_i64(self.num * other.den)
        &&& fits_i64(other.num * self.den)
        &&& fits_i64(self.num * other.den - other.num * self.den)
        &&& fits_i64(self.den * other.den)
    }

    /// Exact multiplication stays inside `i64`.
    pub open spec fn mul_fits(self, other: Scalar) -> bool {
        &&& fits_i64(self.num * other.num)
        &&& fits_i64(self.den * other.den)
    }

    /// The rational `num / den`.
    pub fn new(num: i64, den: i64) -> (r: Scalar)
        requires
            den > 0,
        ensures
            r == (Scalar { num, den }),
    {
        Scalar { num, den }
    }

    /// The integer `n` as a scalar.
    pub fn from_int(n: i64) -> (r: Scalar)
        ensures
            r == (Scalar { num: n, den: 1 }),
    {
        Scalar { num: n, den: 1 }
    }

    /// The rational zero.
    pub fn zero() -> (r: Scalar)
        ensures
            r == (Scalar { num: 0, den: 1 }),
    {
        Scalar { num: 0, den: 1 }
    }

    /// The rational one.
    pub fn one() -> (r: Scalar)
        ensures
            r == (Scalar { num: 1, den: 1 }),
    {
        Scalar { num: 1, den: 1 }
    }

    /// Exact sum of two scalars.
    pub fn add(self, other: Scalar) -> (r: Scalar)
        requires
            self.wf(),
            other.wf(),
            self.add_fits(other),
        ensures
            r == self.add_spec(other),
            r.num == self.num * other.den + other.num * self.den,
            r.den == self.den * other.den,
            r.wf(),
    {
        proof {
            lemma_pos_mul_pos(self.den as int, other.den as int);
        }
        Scalar { num: self.num * other.den + other.num * self.den, den: self.den * other.den }
    }

    /// Exact difference of two scalars.
    pub fn sub(self, other: Scalar) -> (r: Scalar)
        requires
            self.wf(),
            other.wf(),
            self.sub_fits(other),
        ensures
            r == self.sub_spec(other),
            r.num == self.num * other.den - other.num * self.den,
            r.den == self.den * other.den,
            r.wf(),
    {
        proof {
            lemma_pos_mul_pos(self.den as int, other.den as int);
        }
        Scalar { num: self.num * other.den - other.num * self.den, den: self.den * other.den }
    }

    /// Exact product of two scalars.
    pub fn mul(self, other: Scalar) -> (r: Scalar)
        requires
            self.wf(),
            other.wf(),
            self.mul_fits(other),
        ensures
            r.num == self.num * other.num,
            r.den == self.den * other.den,
            r.wf(),
    {
        proof {
            lemma_pos_mul_pos(self.den as int, other.den as int);
        }
        Scalar { num: self.num * other.num, den: self.den * other.den }
    }

    /// Exact half of a scalar.
    pub fn half(self) -> (r: Scalar)
        requires
            self.wf(),
            2 * self.den <= i64::MAX,
        ensures
            r == self.half_spec(),
            r.num == self.num,
            r.den == 2 * self.den,
            r.wf(),
    {
        Scalar { num: self.num, den: 2 * self.den }
    }

    /// The scalar lies within the coordinate budget.
    pub fn in_budget_check(&self) -> (ok: bool)
        ensures
            ok == self.in_budget(),
    {
        -COORD_NUM_LIMIT <= self.num && self.num <= COORD_NUM_LIMIT && 0 < self.den
            && self.den <= COORD_DEN_LIMIT
    }
}

/// The product of two positive integers is positive.
pub proof fn lemma_pos_mul_pos(a: int, b: int)
    by (nonlinear_arith)
    requires
        a > 0,
        b > 0,
    ensures
        a * b > 0,
{
}

} // verus!
