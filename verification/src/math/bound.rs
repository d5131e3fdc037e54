//! Coefficient ranges under which the algebra's products cannot overflow,
//! and the multiplication bounds the overflow proofs rest on.

use vstd::prelude::*;

verus! {

/// Largest coefficient magnitude accepted by a motor product or a vector
/// dot product: sums of eight pairwise products stay below `i64::MAX`.
pub const COMPOSE_BOUND: i64 = 1_000_000_000;

/// Largest coefficient magnitude accepted when a motor is applied to a
/// point: sums of twenty-four triple products stay below `i64::MAX`.
pub const SANDWICH_BOUND: i64 = 500_000;

/// A product of two factors is bounded by the product of their bounds.
pub proof fn lemma_mul_bound(x: int, y: int, b: int) by (nonlinear_arith)
    requires
        0 <= b,
        -b <= x <= b,
        -b <= y <= b,
    ensures
        -(b * b) <= x * y <= b * b,
{
}

/// A product of two factors is bounded by the product of their bounds.
pub proof fn lemma_mul_bound2(x: int, y: int, bx: int, by: int) by (nonlinear_arith)
    requires
        0 <= bx,
        0 <= by,
        -bx <= x <= bx,
        -by <= y <= by,
    ensures
        -(bx * by) <= x * y <= bx * by,
{
}

/// Bounds for every product shape that arises when a motor is applied to
/// a point: plain products, products with one factor doubled, and the
/// final factor of a doubled triple product.
pub proof fn lemma_sandwich_products_bounded(b: int)
    requires
        0 <= b,
    ensures
        forall|x: int, y: int|
            -b <= x <= b && -b <= y <= b ==> -(b * b) <= #[trigger] (x * y) <= b * b,
        forall|x: int, y: int|
            -2 * b <= x <= 2 * b && -b <= y <= b ==> -(2 * b * b) <= #[trigger] (x * y) <= 2 * b
                * b,
        forall|x: int, y: int|
            -2 * b * b <= x <= 2 * b * b && -b <= y <= b ==> -(2 * b * b * b) <= #[trigger] (x
                * y) <= 2 * b * b * b,
{
    assert forall|x: int, y: int|
        -b <= x <= b && -b <= y <= b implies -(b * b) <= #[trigger] (x * y) <= b * b by {
        lemma_mul_bound(x, y, b);
    }
    assert forall|x: int, y: int|
        -2 * b <= x <= 2 * b && -b <= y <= b implies -(2 * b * b) <= #[trigger] (x * y) <= 2 * b
        * b by {
        lemma_mul_bound2(x, y, 2 * b, b);
        assert(2 * b * b == (2 * b) * b) by (nonlinear_arith);
    }
    assert forall|x: int, y: int|
        -2 * b * b <= x <= 2 * b * b && -b <= y <= b implies -(2 * b * b * b) <= #[trigger] (x
        * y) <= 2 * b * b * b by {
        lemma_mul_bound2(x, y, 2 * b * b, b);
        assert(2 * b * b * b == (2 * b * b) * b) by (nonlinear_arith);
    }
}

} // verus!
