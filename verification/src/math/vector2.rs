//! Two-component vectors over fixed-point integer coordinates.

use vstd::prelude::*;

use crate::math::bound::{lemma_mul_bound, COMPOSE_BOUND};

verus! {

/// A 2D vector. Coordinates are fixed-point integers; the scale is the
/// caller's convention and never enters the algebra.
#[derive(Clone, Copy, PartialEq, Eq, Structural, Debug)]
pub struct Vector2 {
    pub x: i64,
    pub y: i64,
}

/// The mathematical value of a vector: two unbounded integers.
pub struct Vector2Model {
    pub x: int,
    pub y: int,
}

impl View for Vector2 {
    type V = Vector2Model;

    open spec fn view(&self) -> Vector2Model {
        Vector2Model { x: self.x as int, y: self.y as int }
    }
}

impl Vector2Model {
    /// Inner product.
    pub open spec fn dot(self, other: Vector2Model) -> int {
        self.x * other.x + self.y * other.y
    }

    /// Every coordinate lies within `bound` of zero.
    pub open spec fn in_range(self, bound: int) -> bool {
        &&& -bound <= self.x <= bound
        &&& -bound <= self.y <= bound
    }
}

impl Vector2 {
    /// Inner product of two vectors.
    pub fn dot(self, other: Self) -> (r: i64)
        requires
            self@.in_range(COMPOSE_BOUND as int),
            other@.in_range(COMPOSE_BOUND as int),
        ensures
            r == self@.dot(other@),
    {
        proof {
            lemma_mul_bound(self.x as int, other.x as int, COMPOSE_BOUND as int);
            lemma_mul_bound(self.y as int, other.y as int, COMPOSE_BOUND as int);
        }
        self.x * other.x + self.y * other.y
    }

    /// Squared Euclidean length.
    pub fn sqr_length(self) -> (r: i64)
        requires
            self@.in_range(COMPOSE_BOUND as int),
        ensures
            r == self@.dot(self@),
    {
        self.dot(self)
    }
}

} // verus!
