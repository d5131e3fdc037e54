//! Three-component vectors over fixed-point integer coordinates.

use vstd::prelude::*;

use crate::math::bound::{lemma_mul_bound, COMPOSE_BOUND};

verus! {

/// A 3D vector. Coordinates are fixed-point integers; the scale is the
/// caller's convention and never enters the algebra.
#[derive(Clone, Copy, PartialEq, Eq, Structural, Debug)]
pub struct Vector3 {
    pub x: i64,
    pub y: i64,
    pub z: i64,
}

/// The mathematical value of a vector: three unbounded integers.
pub struct Vector3Model {
    pub x: int,
    pub y: int,
    pub z: int,
}

impl View for Vector3 {
    type V = Vector3Model;

    open spec fn view(&self) -> Vector3Model {
        Vector3Model { x: self.x as int, y: self.y as int, z: self.z as int }
    }
}

impl Vector3Model {
    /// Componentwise sum.
    pub open spec fn plus(self, other: Vector3Model) -> Vector3Model {
        Vector3Model { x: self.x + other.x, y: self.y + other.y, z: self.z + other.z }
    }

    /// Inner product.
    pub open spec fn dot(self, other: Vector3Model) -> int {
        self.x * other.x + self.y * other.y + self.z * other.z
    }

    /// Every coordinate lies within `bound` of zero.
    pub open spec fn in_range(self, bound: int) -> bool {
        &&& -bound <= self.x <= bound
        &&& -bound <= self.y <= bound
        &&& -bound <= self.z <= bound
    }

    /// Every coordinate is even, so that half of it is again an integer.
    pub open spec fn is_even(self) -> bool {
        self.x % 2 == 0 && self.y % 2 == 0 && self.z % 2 == 0
    }
}

impl Vector3 {
    /// Inner product of two vectors.
    pub fn dot(self, other: Self) -> (r: i64)
        requires
            self@.in_range(COMPOSE_BOUND as int),
            other@.in_range(COMPOSE_BOUND as int),
        ensures
            r == self@.dot(other@),
    {
        proof {
            lemma_mul_bound(self.x as int, other.x as int, COMPOSE_BOUND as int);
            lemma_mul_bound(self.y as int, other.y as int, COMPOSE_BOUND as int);
            lemma_mul_bound(self.z as int, other.z as int, COMPOSE_BOUND as int);
        }
        self.x * other.x + self.y * other.y + self.z * other.z
    }

    /// Squared Euclidean length.
    pub fn sqr_length(self) -> (r: i64)
        requires
            self@.in_range(COMPOSE_BOUND as int),
        ensures
            r == self@.dot(self@),
    {
        self.dot(self)
    }
}

} // verus!
