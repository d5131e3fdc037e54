//! Homogeneous points: four-coefficient elements of the same algebra as
//! motors (trivector basis), convertible to and from plain 3D vectors.

use vstd::prelude::*;

use crate::math::bound::{lemma_sandwich_products_bounded, SANDWICH_BOUND};
use crate::math::motor::{Motor, MotorModel};
use crate::math::vector3::{Vector3, Vector3Model};
use vstd::arithmetic::div_mod::{
    lemma_div_nonincreasing, lemma_fundamental_div_mod, lemma_fundamental_div_mod_converse_div,
};

verus! {

/// A homogeneous point. The `e123` coefficient is the homogeneous weight:
/// dividing the others by it recovers Euclidean coordinates.
#[derive(Clone, Copy, PartialEq, Eq, Structural, Debug)]
pub struct Point {
    pub e012: i64,
    pub e013: i64,
    pub e023: i64,
    pub e123: i64,
}

/// The mathematical value of a point: four unbounded integer coefficients.
pub struct PointModel {
    pub e012: int,
    pub e013: int,
    pub e023: int,
    pub e123: int,
}

impl View for Point {
    type V = PointModel;

    open spec fn view(&self) -> PointModel {
        PointModel {
            e012: self.e012 as int,
            e013: self.e013 as int,
            e023: self.e023 as int,
            e123: self.e123 as int,
        }
    }
}

impl PointModel {
    /// The origin: all coordinates zero, unit weight.
    pub open spec fn origin() -> PointModel {
        PointModel { e012: 0, e013: 0, e023: 0, e123: 1 }
    }

    /// The point standing for the vector `v`, with unit weight. The basis
    /// mapping is fixed: `e012` carries z, `e013` carries negated y,
    /// `e023` carries x.
    pub open spec fn from_vector(v: Vector3Model) -> PointModel {
        PointModel { e012: v.z, e013: -v.y, e023: v.x, e123: 1 }
    }

    /// The Euclidean coordinates of the point: each coordinate divided by
    /// the homogeneous weight.
    pub open spec fn to_vector(self) -> Vector3Model {
        Vector3Model {
            x: self.e023 / self.e123,
            y: -(self.e013 / self.e123),
            z: self.e012 / self.e123,
        }
    }

    /// The sandwich product `m * p * reverse(m)` expanded into closed
    /// form over the four point and eight motor coefficients.
    pub open spec fn transform(self, m: MotorModel) -> PointModel {
        PointModel {
            e012: -2 * (m.s * m.e23 * self.e013) - 2 * (m.s * m.e03 * self.e123) + m.s * m.s
                * self.e012 + 2 * (m.s * m.e13 * self.e023) - m.e23 * m.e23 * self.e012 - 2
                * (m.e23 * m.e02 * self.e123) + 2 * (m.e12 * m.e23 * self.e023) - 2 * (m.e12
                * m.e0123 * self.e123) - 2 * (m.e13 * m.e01 * self.e123) + m.e12 * m.e12
                * self.e012 + 2 * (m.e12 * m.e13 * self.e013) - m.e13 * m.e13 * self.e012,
            e013: -2 * (m.s * m.e12 * self.e023) - m.e12 * m.e12 * self.e013 + 2 * (m.e12
                * m.e13 * self.e012) + 2 * (m.e12 * m.e01 * self.e123) + m.s * m.s * self.e013
                + 2 * (m.s * m.e23 * self.e012) + 2 * (m.s * m.e02 * self.e123) - 2 * (m.e13
                * m.e0123 * self.e123) - 2 * (m.e23 * m.e03 * self.e123) - m.e23 * m.e23
                * self.e013 + 2 * (m.e13 * m.e23 * self.e023) + m.e13 * m.e13 * self.e013,
            e023: -2 * (m.s * m.e13 * self.e012) - 2 * (m.s * m.e01 * self.e123) + m.s * m.s
                * self.e023 + 2 * (m.s * m.e12 * self.e013) - m.e13 * m.e13 * self.e023 + 2
                * (m.e13 * m.e23 * self.e013) + 2 * (m.e13 * m.e03 * self.e123) - 2 * (m.e23
                * m.e0123 * self.e123) + 2 * (m.e12 * m.e02 * self.e123) - m.e12 * m.e12
                * self.e023 + 2 * (m.e12 * m.e23 * self.e012) + m.e23 * m.e23 * self.e023,
            e123: m.s * m.s * self.e123 + m.e12 * m.e12 * self.e123 + m.e13 * m.e13 * self.e123
                + m.e23 * m.e23 * self.e123,
        }
    }

    /// Every coefficient lies within `bound` of zero.
    pub open spec fn in_range(self, bound: int) -> bool {
        &&& -bound <= self.e012 <= bound
        &&& -bound <= self.e013 <= bound
        &&& -bound <= self.e023 <= bound
        &&& -bound <= self.e123 <= bound
    }
}

/// Exact signed division: the divisor is nonzero and divides the dividend,
/// so the quotient is the mathematical one.
fn exact_div(n: i64, d: i64) -> (q: i64)
    requires
        d != 0,
        n != i64::MIN,
        d != i64::MIN,
        n % d == 0,
    ensures
        q == n as int / d as int,
        q != i64::MIN,
{
    proof {
        lemma_fundamental_div_mod(n as int, d as int);
    }
    let ghost quot: int = n as int / d as int;
    let negate = (n < 0) != (d < 0);
    let na = (if n < 0 {
        -n
    } else {
        n
    }) as u64;
    let da = (if d < 0 {
        -d
    } else {
        d
    }) as u64;
    let qa = na / da;
    proof {
        let ni: int = n as int;
        let di: int = d as int;
        if n >= 0 && d > 0 {
            assert(qa == quot);
        } else if n >= 0 && d < 0 {
            assert((-quot) * (-di) + 0 == di * quot) by (nonlinear_arith);
            lemma_fundamental_div_mod_converse_div(ni, -di, -quot, 0);
        } else if n < 0 && d > 0 {
            assert((-quot) * di + 0 == -(di * quot)) by (nonlinear_arith);
            lemma_fundamental_div_mod_converse_div(-ni, di, -quot, 0);
        } else {
            assert(quot * (-di) + 0 == -(di * quot)) by (nonlinear_arith);
            lemma_fundamental_div_mod_converse_div(-ni, -di, quot, 0);
        }
        lemma_div_nonincreasing(na as int, da as int);
    }
    if negate {
        -(qa as i64)
    } else {
        qa as i64
    }
}

impl Point {
    /// The origin: all coordinates zero, unit weight.
    pub fn identity() -> (r: Self)
        ensures
            r@ == PointModel::origin(),
    {
        Point { e012: 0, e013: 0, e023: 0, e123: 1 }
    }

    /// The homogeneous point standing for the vector `v`.
    pub fn from_vector(v: Vector3) -> (r: Self)
        requires
            v.y != i64::MIN,
        ensures
            r@ == PointModel::from_vector(v@),
    {
        Point { e012: v.z, e013: -v.y, e023: v.x, e123: 1 }
    }

    /// The Euclidean coordinates of the point. The weight must be nonzero
    /// and divide each coordinate exactly, so that the quotients are
    /// integers.
    pub fn to_vector(self) -> (r: Vector3)
        requires
            self@.in_range(i64::MAX as int),
            self.e123 != 0,
            self@.e023 % self@.e123 == 0,
            self@.e013 % self@.e123 == 0,
            self@.e012 % self@.e123 == 0,
        ensures
            r@ == self@.to_vector(),
    {
        Vector3 {
            x: exact_div(self.e023, self.e123),
            y: -exact_div(self.e013, self.e123),
            z: exact_div(self.e012, self.e123),
        }
    }

    /// Transform the point by a motor: the sandwich product
    /// `m * p * reverse(m)`.
    #[verifier::rlimit(100)]
    pub fn transform(self, motor: Motor) -> (r: Self)
        requires
            motor@.in_range(SANDWICH_BOUND as int),
            self@.in_range(SANDWICH_BOUND as int),
        ensures
            r@ == self@.transform(motor@),
    {
        let a = motor.s;
        let b = motor.e12;
        let c = motor.e13;
        let d = motor.e23;
        let e = motor.e01;
        let f = motor.e02;
        let g = motor.e03;
        let h = motor.e0123;
        let i = self.e012;
        let j = self.e013;
        let k = self.e023;
        let l = self.e123;

        proof {
            lemma_sandwich_products_bounded(SANDWICH_BOUND as int);
        }

        Point {
            e012: -2 * (a * d * j) - 2 * (a * g * l) + a * a * i + 2 * (a * c * k) - d * d * i
                - 2 * (d * f * l) + 2 * (b * d * k) - 2 * (b * h * l) - 2 * (c * e * l) + b * b
                * i + 2 * (b * c * j) - c * c * i,
            e013: -2 * (a * b * k) - b * b * j + 2 * (b * c * i) + 2 * (b * e * l) + a * a * j
                + 2 * (a * d * i) + 2 * (a * f * l) - 2 * (c * h * l) - 2 * (d * g * l) - d * d
                * j + 2 * (c * d * k) + c * c * j,
            e023: -2 * (a * c * i) - 2 * (a * e * l) + a * a * k + 2 * (a * b * j) - c * c * k
                + 2 * (c * d * j) + 2 * (c * g * l) - 2 * (d * h * l) + 2 * (b * f * l) - b * b
                * k + 2 * (b * d * i) + d * d * k,
            e123: a * a * l + b * b * l + c * c * l + d * d * l,
        }
    }
}

} // verus!
