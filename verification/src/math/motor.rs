//! Motors: eight-coefficient elements of 3D projective geometric algebra
//! representing rigid (rotation + translation) transforms, closed under
//! composition and inversion.

use vstd::prelude::*;

use crate::math::bound::{lemma_mul_bound, COMPOSE_BOUND};
use crate::math::vector3::{Vector3, Vector3Model};

verus! {

/// A rigid transform: one scalar, three rotation bivector coefficients
/// (`e12`, `e13`, `e23`), three translation bivector coefficients
/// (`e01`, `e02`, `e03`) and one pseudoscalar coefficient.
#[derive(Clone, Copy, PartialEq, Eq, Structural, Debug)]
pub struct Motor {
    pub s: i64,
    pub e12: i64,
    pub e13: i64,
    pub e23: i64,
    pub e01: i64,
    pub e02: i64,
    pub e03: i64,
    pub e0123: i64,
}

/// The mathematical value of a motor: eight unbounded integer coefficients.
pub struct MotorModel {
    pub s: int,
    pub e12: int,
    pub e13: int,
    pub e23: int,
    pub e01: int,
    pub e02: int,
    pub e03: int,
    pub e0123: int,
}

impl View for Motor {
    type V = MotorModel;

    open spec fn view(&self) -> MotorModel {
        MotorModel {
            s: self.s as int,
            e12: self.e12 as int,
            e13: self.e13 as int,
            e23: self.e23 as int,
            e01: self.e01 as int,
            e02: self.e02 as int,
            e03: self.e03 as int,
            e0123: self.e0123 as int,
        }
    }
}

impl MotorModel {
    /// The neutral element of composition.
    pub open spec fn identity() -> MotorModel {
        MotorModel { s: 1, e12: 0, e13: 0, e23: 0, e01: 0, e02: 0, e03: 0, e0123: 0 }
    }

    /// The geometric product of two motors: each output coefficient is a
    /// fixed signed sum of products of input coefficients, as given by the
    /// multiplication table of the algebra's basis bivectors.
    pub open spec fn product(a: MotorModel, b: MotorModel) -> MotorModel {
        MotorModel {
            s: -a.e12 * b.e12 - a.e13 * b.e13 - a.e23 * b.e23 + a.s * b.s,
            e12: -a.e13 * b.e23 + a.s * b.e12 + a.e12 * b.s + a.e23 * b.e13,
            e13: -a.e23 * b.e12 + a.s * b.e13 + a.e12 * b.e23 + a.e13 * b.s,
            e23: -a.e12 * b.e13 + a.s * b.e23 + a.e13 * b.e12 + a.e23 * b.s,
            e01: -a.e23 * b.e0123 - a.e02 * b.e12 - a.e03 * b.e13 - a.e0123 * b.e23
                + a.s * b.e01 + a.e12 * b.e02 + a.e13 * b.e03 + a.e01 * b.s,
            e02: -a.e12 * b.e01 - a.e03 * b.e23 + a.s * b.e02 + a.e13 * b.e0123
                + a.e23 * b.e03 + a.e01 * b.e12 + a.e02 * b.s + a.e0123 * b.e13,
            e03: -a.e12 * b.e0123 - a.e13 * b.e01 - a.e23 * b.e02 - a.e0123 * b.e12
                + a.s * b.e03 + a.e01 * b.e13 + a.e02 * b.e23 + a.e03 * b.s,
            e0123: -a.e13 * b.e02 - a.e02 * b.e13 + a.s * b.e0123 + a.e12 * b.e03
                + a.e23 * b.e01 + a.e01 * b.e23 + a.e03 * b.e12 + a.e0123 * b.s,
        }
    }

    /// A pure translation by `offset` (which must be even for the half to
    /// be an integer): translation coefficients carry half the negated
    /// offset, the rotation part is the identity.
    pub open spec fn translation(offset: Vector3Model) -> MotorModel {
        MotorModel {
            s: 1,
            e12: 0,
            e13: 0,
            e23: 0,
            e01: -(offset.x / 2),
            e02: -(offset.y / 2),
            e03: -(offset.z / 2),
            e0123: 0,
        }
    }

    /// A rotation in the xy plane, built from the sine and cosine of half
    /// the rotation angle.
    pub open spec fn rotation_xy(sin: int, cos: int) -> MotorModel {
        MotorModel { s: cos, e12: sin, e13: 0, e23: 0, e01: 0, e02: 0, e03: 0, e0123: 0 }
    }

    /// A rotation in the xz plane, built from the sine and cosine of half
    /// the rotation angle.
    pub open spec fn rotation_xz(sin: int, cos: int) -> MotorModel {
        MotorModel { s: cos, e12: 0, e13: sin, e23: 0, e01: 0, e02: 0, e03: 0, e0123: 0 }
    }

    /// A rotation in the yz plane, built from the sine and cosine of half
    /// the rotation angle.
    pub open spec fn rotation_yz(sin: int, cos: int) -> MotorModel {
        MotorModel { s: cos, e12: 0, e13: 0, e23: sin, e01: 0, e02: 0, e03: 0, e0123: 0 }
    }

    /// The reverse: every bivector coefficient negated, scalar and
    /// pseudoscalar kept. For a unit motor this is the inverse.
    pub open spec fn reverse(self) -> MotorModel {
        MotorModel {
            s: self.s,
            e12: -self.e12,
            e13: -self.e13,
            e23: -self.e23,
            e01: -self.e01,
            e02: -self.e02,
            e03: -self.e03,
            e0123: self.e0123,
        }
    }

    /// The rotation part: translation coefficients zeroed, rotation,
    /// scalar and pseudoscalar coefficients kept.
    pub open spec fn rotation_part(self) -> MotorModel {
        MotorModel {
            s: self.s,
            e12: self.e12,
            e13: self.e13,
            e23: self.e23,
            e01: 0,
            e02: 0,
            e03: 0,
            e0123: self.e0123,
        }
    }

    /// A valid (unit-norm) motor: the rotation part has unit norm and the
    /// pseudoscalar cross term vanishes. Exactly these motors satisfy
    /// `product(m, m.reverse()) == identity()`.
    pub open spec fn is_unit(self) -> bool {
        &&& self.s * self.s + self.e12 * self.e12 + self.e13 * self.e13 + self.e23 * self.e23
            == 1
        &&& self.s * self.e0123 - self.e12 * self.e03 + self.e13 * self.e02 - self.e23 * self.e01
            == 0
    }

    /// Every coefficient lies within `bound` of zero.
    pub open spec fn in_range(self, bound: int) -> bool {
        &&& -bound <= self.s <= bound
        &&& -bound <= self.e12 <= bound
        &&& -bound <= self.e13 <= bound
        &&& -bound <= self.e23 <= bound
        &&& -bound <= self.e01 <= bound
        &&& -bound <= self.e02 <= bound
        &&& -bound <= self.e03 <= bound
        &&& -bound <= self.e0123 <= bound
    }
}

/// Products of two values both within `b` of zero stay within `b * b`.
pub proof fn lemma_pair_products_bounded(b: int)
    requires
        0 <= b,
    ensures
        forall|x: int, y: int|
            -b <= x <= b && -b <= y <= b ==> -(b * b) <= #[trigger] (x * y) <= b * b,
{
    assert forall|x: int, y: int|
        -b <= x <= b && -b <= y <= b implies -(b * b) <= #[trigger] (x * y) <= b * b by {
        lemma_mul_bound(x, y, b);
    }
}

impl Motor {
    /// The neutral element of composition.
    pub fn identity() -> (r: Self)
        ensures
            r@ == MotorModel::identity(),
    {
        Motor { s: 1, e12: 0, e13: 0, e23: 0, e01: 0, e02: 0, e03: 0, e0123: 0 }
    }

    /// A motor encoding a pure translation by `offset`. The offset must be
    /// even in every coordinate, since the coefficients carry its half.
    pub fn translation(offset: Vector3) -> (r: Self)
        requires
            offset@.is_even(),
        ensures
            r@ == MotorModel::translation(offset@),
    {
        let hx = offset.x / 2;
        let hy = offset.y / 2;
        let hz = offset.z / 2;
        Motor { s: 1, e12: 0, e13: 0, e23: 0, e01: -hx, e02: -hy, e03: -hz, e0123: 0 }
    }

    /// A rotation in the xy plane from the sine and cosine of half the
    /// rotation angle.
    pub fn rotation_xy(sin: i64, cos: i64) -> (r: Self)
        ensures
            r@ == MotorModel::rotation_xy(sin as int, cos as int),
    {
        Motor { s: cos, e12: sin, e13: 0, e23: 0, e01: 0, e02: 0, e03: 0, e0123: 0 }
    }

    /// A rotation in the xz plane from the sine and cosine of half the
    /// rotation angle.
    pub fn rotation_xz(sin: i64, cos: i64) -> (r: Self)
        ensures
            r@ == MotorModel::rotation_xz(sin as int, cos as int),
    {
        Motor { s: cos, e12: 0, e13: sin, e23: 0, e01: 0, e02: 0, e03: 0, e0123: 0 }
    }

    /// A rotation in the yz plane from the sine and cosine of half the
    /// rotation angle.
    pub fn rotation_yz(sin: i64, cos: i64) -> (r: Self)
        ensures
            r@ == MotorModel::rotation_yz(sin as int, cos as int),
    {
        Motor { s: cos, e12: 0, e13: 0, e23: sin, e01: 0, e02: 0, e03: 0, e0123: 0 }
    }

    /// Compose `self` with `other`: the geometric product `self * other`.
    /// Not commutative in general.
    pub fn apply(self, other: Self) -> (r: Self)
        requires
            self@.in_range(COMPOSE_BOUND as int),
            other@.in_range(COMPOSE_BOUND as int),
        ensures
            r@ == MotorModel::product(self@, other@),
    {
        let a = self.s;
        let b = self.e12;
        let c = self.e13;
        let d = self.e23;
        let e = self.e01;
        let f = self.e02;
        let g = self.e03;
        let h = self.e0123;
        let i = other.s;
        let j = other.e12;
        let k = other.e13;
        let l = other.e23;
        let m = other.e01;
        let n = other.e02;
        let o = other.e03;
        let p = other.e0123;

        proof {
            lemma_pair_products_bounded(COMPOSE_BOUND as int);
        }

        Motor {
            s: -b * j - c * k - d * l + a * i,
            e12: -c * l + a * j + b * i + d * k,
            e13: -d * j + a * k + b * l + c * i,
            e23: -b * k + a * l + c * j + d * i,
            e01: -d * p - f * j - g * k - h * l + a * m + b * n + c * o + e * i,
            e02: -b * m - g * l + a * n + c * p + d * o + e * j + f * i + h * k,
            e03: -b * p - c * m - d * n - h * j + a * o + e * k + f * l + g * i,
            e0123: -c * n - f * k + a * p + b * o + d * m + e * l + g * j + h * i,
        }
    }

    /// Compose so that `other` applies before `self`: the product
    /// `other * self`, the ordering hierarchy composition uses.
    pub fn pre_apply(self, other: Self) -> (r: Self)
        requires
            self@.in_range(COMPOSE_BOUND as int),
            other@.in_range(COMPOSE_BOUND as int),
        ensures
            r@ == MotorModel::product(other@, self@),
    {
        other.apply(self)
    }

    /// The reverse of the motor, which inverts valid (unit-norm) motors:
    /// every bivector coefficient negated, scalar and pseudoscalar kept.
    pub fn inverse(self) -> (r: Self)
        requires
            self@.in_range(i64::MAX as int),
        ensures
            r@ == self@.reverse(),
    {
        Motor {
            s: self.s,
            e12: -self.e12,
            e13: -self.e13,
            e23: -self.e23,
            e01: -self.e01,
            e02: -self.e02,
            e03: -self.e03,
            e0123: self.e0123,
        }
    }

    /// The rotation part: translation coefficients zeroed, the rest kept.
    pub fn rotation_part(self) -> (r: Self)
        ensures
            r@ == self@.rotation_part(),
    {
        Motor {
            s: self.s,
            e12: self.e12,
            e13: self.e13,
            e23: self.e23,
            e01: 0,
            e02: 0,
            e03: 0,
            e0123: self.e0123,
        }
    }
}

} // verus!
