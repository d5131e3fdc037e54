//! The algebra's laws: identity, associativity, inversion of unit motors,
//! additivity of translations, and the vector round trip, each stated over
//! the mathematical motor and point models and proved once for all values.

use vstd::prelude::*;

use crate::math::motor::MotorModel;
use crate::math::point::PointModel;
use crate::math::vector3::Vector3Model;
use vstd::arithmetic::div_mod::{lemma_div_multiples_vanish, lemma_fundamental_div_mod};
use vstd::arithmetic::mul::{
    lemma_mul_is_associative, lemma_mul_is_distributive_add,
    lemma_mul_is_distributive_add_other_way, lemma_mul_is_distributive_sub,
    lemma_mul_is_distributive_sub_other_way, lemma_mul_unary_negation,
};

verus! {

/// Law: the identity motor is neutral for composition on either side.
pub proof fn lemma_compose_identity(m: MotorModel)
    ensures
        MotorModel::product(MotorModel::identity(), m) == m,
        MotorModel::product(m, MotorModel::identity()) == m,
{
}

/// One coefficient of the associativity law: both nestings expand to
/// the same signed sum of triple products.
proof fn lemma_assoc_s(a: MotorModel, b: MotorModel, c: MotorModel)
    ensures
        MotorModel::product(MotorModel::product(a, b), c).s == MotorModel::product(
            a,
            MotorModel::product(b, c),
        ).s,
{
    let ab = MotorModel::product(a, b);
    let bc = MotorModel::product(b, c);
    lemma_mul_unary_negation(a.e13, b.e23);
    lemma_mul_unary_negation(a.e13 * b.e23, c.e12);
    lemma_mul_is_distributive_add_other_way(c.e12, -a.e13 * b.e23, a.s * b.e12);
    lemma_mul_is_distributive_add_other_way(c.e12, -a.e13 * b.e23 + a.s * b.e12, a.e12 * b.s);
    lemma_mul_is_distributive_add_other_way(c.e12, -a.e13 * b.e23 + a.s * b.e12 + a.e12 * b.s, a.e23 * b.e13);
    lemma_mul_unary_negation(ab.e12, c.e12);
    lemma_mul_unary_negation(a.e23, b.e12);
    lemma_mul_unary_negation(a.e23 * b.e12, c.e13);
    lemma_mul_is_distributive_add_other_way(c.e13, -a.e23 * b.e12, a.s * b.e13);
    lemma_mul_is_distributive_add_other_way(c.e13, -a.e23 * b.e12 + a.s * b.e13, a.e12 * b.e23);
    lemma_mul_is_distributive_add_other_way(c.e13, -a.e23 * b.e12 + a.s * b.e13 + a.e12 * b.e23, a.e13 * b.s);
    lemma_mul_unary_negation(a.e12, b.e13);
    lemma_mul_unary_negation(a.e12 * b.e13, c.e23);
    lemma_mul_is_distributive_add_other_way(c.e23, -a.e12 * b.e13, a.s * b.e23);
    lemma_mul_is_distributive_add_other_way(c.e23, -a.e12 * b.e13 + a.s * b.e23, a.e13 * b.e12);
    lemma_mul_is_distributive_add_other_way(c.e23, -a.e12 * b.e13 + a.s * b.e23 + a.e13 * b.e12, a.e23 * b.s);
    lemma_mul_unary_negation(a.e12, b.e12);
    lemma_mul_unary_negation(a.e12 * b.e12, c.s);
    lemma_mul_is_distributive_sub_other_way(c.s, -a.e12 * b.e12, a.e13 * b.e13);
    lemma_mul_is_distributive_sub_other_way(c.s, -a.e12 * b.e12 - a.e13 * b.e13, a.e23 * b.e23);
    lemma_mul_is_distributive_add_other_way(c.s, -a.e12 * b.e12 - a.e13 * b.e13 - a.e23 * b.e23, a.s * b.s);
    lemma_mul_is_associative(a.e12, b.e13, c.e23);
    lemma_mul_is_associative(a.e12, b.s, c.e12);
    lemma_mul_is_associative(a.e12, b.e12, c.s);
    lemma_mul_is_associative(a.e12, b.e23, c.e13);
    lemma_mul_unary_negation(b.e13, c.e23);
    lemma_mul_unary_negation(a.e12, b.e13 * c.e23);
    lemma_mul_is_distributive_add(a.e12, -b.e13 * c.e23, b.s * c.e12);
    lemma_mul_is_distributive_add(a.e12, -b.e13 * c.e23 + b.s * c.e12, b.e12 * c.s);
    lemma_mul_is_distributive_add(a.e12, -b.e13 * c.e23 + b.s * c.e12 + b.e12 * c.s, b.e23 * c.e13);
    lemma_mul_unary_negation(a.e12, bc.e12);
    lemma_mul_is_associative(a.e13, b.e23, c.e12);
    lemma_mul_is_associative(a.e13, b.s, c.e13);
    lemma_mul_is_associative(a.e13, b.e12, c.e23);
    lemma_mul_is_associative(a.e13, b.e13, c.s);
    lemma_mul_unary_negation(b.e23, c.e12);
    lemma_mul_unary_negation(a.e13, b.e23 * c.e12);
    lemma_mul_is_distributive_add(a.e13, -b.e23 * c.e12, b.s * c.e13);
    lemma_mul_is_distributive_add(a.e13, -b.e23 * c.e12 + b.s * c.e13, b.e12 * c.e23);
    lemma_mul_is_distributive_add(a.e13, -b.e23 * c.e12 + b.s * c.e13 + b.e12 * c.e23, b.e13 * c.s);
    lemma_mul_is_associative(a.e23, b.e12, c.e13);
    lemma_mul_is_associative(a.e23, b.s, c.e23);
    lemma_mul_is_associative(a.e23, b.e13, c.e12);
    lemma_mul_is_associative(a.e23, b.e23, c.s);
    lemma_mul_unary_negation(b.e12, c.e13);
    lemma_mul_unary_negation(a.e23, b.e12 * c.e13);
    lemma_mul_is_distributive_add(a.e23, -b.e12 * c.e13, b.s * c.e23);
    lemma_mul_is_distributive_add(a.e23, -b.e12 * c.e13 + b.s * c.e23, b.e13 * c.e12);
    lemma_mul_is_distributive_add(a.e23, -b.e12 * c.e13 + b.s * c.e23 + b.e13 * c.e12, b.e23 * c.s);
    lemma_mul_is_associative(a.s, b.e12, c.e12);
    lemma_mul_is_associative(a.s, b.e13, c.e13);
    lemma_mul_is_associative(a.s, b.e23, c.e23);
    lemma_mul_is_associative(a.s, b.s, c.s);
    lemma_mul_unary_negation(b.e12, c.e12);
    lemma_mul_unary_negation(a.s, b.e12 * c.e12);
    lemma_mul_is_distributive_sub(a.s, -b.e12 * c.e12, b.e13 * c.e13);
    lemma_mul_is_distributive_sub(a.s, -b.e12 * c.e12 - b.e13 * c.e13, b.e23 * c.e23);
    lemma_mul_is_distributive_add(a.s, -b.e12 * c.e12 - b.e13 * c.e13 - b.e23 * c.e23, b.s * c.s);
    assert(MotorModel::product(ab, c).s == a.e13 * b.e23 * c.e12 + a.e23 * b.e12 * c.e13 + a.e12 * b.e13 * c.e23 + a.s * b.s * c.s - a.s * b.e12 * c.e12 - a.e12 * b.s * c.e12 - a.e23 * b.e13 * c.e12 - a.s * b.e13 * c.e13 - a.e12 * b.e23 * c.e13 - a.e13 * b.s * c.e13 - a.s * b.e23 * c.e23 - a.e13 * b.e12 * c.e23 - a.e23 * b.s * c.e23 - a.e12 * b.e12 * c.s - a.e13 * b.e13 * c.s - a.e23 * b.e23 * c.s);
    assert(MotorModel::product(a, bc).s == a.e12 * b.e13 * c.e23 + a.e13 * b.e23 * c.e12 + a.e23 * b.e12 * c.e13 + a.s * b.s * c.s - a.e12 * b.s * c.e12 - a.e12 * b.e12 * c.s - a.e12 * b.e23 * c.e13 - a.e13 * b.s * c.e13 - a.e13 * b.e12 * c.e23 - a.e13 * b.e13 * c.s - a.e23 * b.s * c.e23 - a.e23 * b.e13 * c.e12 - a.e23 * b.e23 * c.s - a.s * b.e12 * c.e12 - a.s * b.e13 * c.e13 - a.s * b.e23 * c.e23);
}

/// One coefficient of the associativity law: both nestings expand to
/// the same signed sum of triple products.
proof fn lemma_assoc_e12(a: MotorModel, b: MotorModel, c: MotorModel)
    ensures
        MotorModel::product(MotorModel::product(a, b), c).e12 == MotorModel::product(
            a,
            MotorModel::product(b, c),
        ).e12,
{
    let ab = MotorModel::product(a, b);
    let bc = MotorModel::product(b, c);
    lemma_mul_unary_negation(a.e23, b.e12);
    lemma_mul_unary_negation(a.e23 * b.e12, c.e23);
    lemma_mul_is_distributive_add_other_way(c.e23, -a.e23 * b.e12, a.s * b.e13);
    lemma_mul_is_distributive_add_other_way(c.e23, -a.e23 * b.e12 + a.s * b.e13, a.e12 * b.e23);
    lemma_mul_is_distributive_add_other_way(c.e23, -a.e23 * b.e12 + a.s * b.e13 + a.e12 * b.e23, a.e13 * b.s);
    lemma_mul_unary_negation(ab.e13, c.e23);
    lemma_mul_unary_negation(a.e12, b.e12);
    lemma_mul_unary_negation(a.e12 * b.e12, c.e12);
    lemma_mul_is_distributive_sub_other_way(c.e12, -a.e12 * b.e12, a.e13 * b.e13);
    lemma_mul_is_distributive_sub_other_way(c.e12, -a.e12 * b.e12 - a.e13 * b.e13, a.e23 * b.e23);
    lemma_mul_is_distributive_add_other_way(c.e12, -a.e12 * b.e12 - a.e13 * b.e13 - a.e23 * b.e23, a.s * b.s);
    lemma_mul_unary_negation(a.e13, b.e23);
    lemma_mul_unary_negation(a.e13 * b.e23, c.s);
    lemma_mul_is_distributive_add_other_way(c.s, -a.e13 * b.e23, a.s * b.e12);
    lemma_mul_is_distributive_add_other_way(c.s, -a.e13 * b.e23 + a.s * b.e12, a.e12 * b.s);
    lemma_mul_is_distributive_add_other_way(c.s, -a.e13 * b.e23 + a.s * b.e12 + a.e12 * b.s, a.e23 * b.e13);
    lemma_mul_unary_negation(a.e12, b.e13);
    lemma_mul_unary_negation(a.e12 * b.e13, c.e13);
    lemma_mul_is_distributive_add_other_way(c.e13, -a.e12 * b.e13, a.s * b.e23);
    lemma_mul_is_distributive_add_other_way(c.e13, -a.e12 * b.e13 + a.s * b.e23, a.e13 * b.e12);
    lemma_mul_is_distributive_add_other_way(c.e13, -a.e12 * b.e13 + a.s * b.e23 + a.e13 * b.e12, a.e23 * b.s);
    lemma_mul_is_associative(a.e13, b.e12, c.e13);
    lemma_mul_is_associative(a.e13, b.s, c.e23);
    lemma_mul_is_associative(a.e13, b.e13, c.e12);
    lemma_mul_is_associative(a.e13, b.e23, c.s);
    lemma_mul_unary_negation(b.e12, c.e13);
    lemma_mul_unary_negation(a.e13, b.e12 * c.e13);
    lemma_mul_is_distributive_add(a.e13, -b.e12 * c.e13, b.s * c.e23);
    lemma_mul_is_distributive_add(a.e13, -b.e12 * c.e13 + b.s * c.e23, b.e13 * c.e12);
    lemma_mul_is_distributive_add(a.e13, -b.e12 * c.e13 + b.s * c.e23 + b.e13 * c.e12, b.e23 * c.s);
    lemma_mul_unary_negation(a.e13, bc.e23);
    lemma_mul_is_associative(a.s, b.e13, c.e23);
    lemma_mul_is_associative(a.s, b.s, c.e12);
    lemma_mul_is_associative(a.s, b.e12, c.s);
    lemma_mul_is_associative(a.s, b.e23, c.e13);
    lemma_mul_unary_negation(b.e13, c.e23);
    lemma_mul_unary_negation(a.s, b.e13 * c.e23);
    lemma_mul_is_distributive_add(a.s, -b.e13 * c.e23, b.s * c.e12);
    lemma_mul_is_distributive_add(a.s, -b.e13 * c.e23 + b.s * c.e12, b.e12 * c.s);
    lemma_mul_is_distributive_add(a.s, -b.e13 * c.e23 + b.s * c.e12 + b.e12 * c.s, b.e23 * c.e13);
    lemma_mul_is_associative(a.e12, b.e12, c.e12);
    lemma_mul_is_associative(a.e12, b.e13, c.e13);
    lemma_mul_is_associative(a.e12, b.e23, c.e23);
    lemma_mul_is_associative(a.e12, b.s, c.s);
    lemma_mul_unary_negation(b.e12, c.e12);
    lemma_mul_unary_negation(a.e12, b.e12 * c.e12);
    lemma_mul_is_distributive_sub(a.e12, -b.e12 * c.e12, b.e13 * c.e13);
    lemma_mul_is_distributive_sub(a.e12, -b.e12 * c.e12 - b.e13 * c.e13, b.e23 * c.e23);
    lemma_mul_is_distributive_add(a.e12, -b.e12 * c.e12 - b.e13 * c.e13 - b.e23 * c.e23, b.s * c.s);
    lemma_mul_is_associative(a.e23, b.e23, c.e12);
    lemma_mul_is_associative(a.e23, b.s, c.e13);
    lemma_mul_is_associative(a.e23, b.e12, c.e23);
    lemma_mul_is_associative(a.e23, b.e13, c.s);
    lemma_mul_unary_negation(b.e23, c.e12);
    lemma_mul_unary_negation(a.e23, b.e23 * c.e12);
    lemma_mul_is_distributive_add(a.e23, -b.e23 * c.e12, b.s * c.e13);
    lemma_mul_is_distributive_add(a.e23, -b.e23 * c.e12 + b.s * c.e13, b.e12 * c.e23);
    lemma_mul_is_distributive_add(a.e23, -b.e23 * c.e12 + b.s * c.e13 + b.e12 * c.e23, b.e13 * c.s);
    assert(MotorModel::product(ab, c).e12 == a.e23 * b.e12 * c.e23 + a.s * b.s * c.e12 + a.s * b.e12 * c.s + a.e12 * b.s * c.s + a.e23 * b.e13 * c.s + a.s * b.e23 * c.e13 + a.e13 * b.e12 * c.e13 + a.e23 * b.s * c.e13 - a.s * b.e13 * c.e23 - a.e12 * b.e23 * c.e23 - a.e13 * b.s * c.e23 - a.e12 * b.e12 * c.e12 - a.e13 * b.e13 * c.e12 - a.e23 * b.e23 * c.e12 - a.e13 * b.e23 * c.s - a.e12 * b.e13 * c.e13);
    assert(MotorModel::product(a, bc).e12 == a.e13 * b.e12 * c.e13 + a.s * b.s * c.e12 + a.s * b.e12 * c.s + a.s * b.e23 * c.e13 + a.e12 * b.s * c.s + a.e23 * b.s * c.e13 + a.e23 * b.e12 * c.e23 + a.e23 * b.e13 * c.s - a.e13 * b.s * c.e23 - a.e13 * b.e13 * c.e12 - a.e13 * b.e23 * c.s - a.s * b.e13 * c.e23 - a.e12 * b.e12 * c.e12 - a.e12 * b.e13 * c.e13 - a.e12 * b.e23 * c.e23 - a.e23 * b.e23 * c.e12);
}

/// One coefficient of the associativity law: both nestings expand to
/// the same signed sum of triple products.
proof fn lemma_assoc_e13(a: MotorModel, b: MotorModel, c: MotorModel)
    ensures
        MotorModel::product(MotorModel::product(a, b), c).e13 == MotorModel::product(
            a,
            MotorModel::product(b, c),
        ).e13,
{
    let ab = MotorModel::product(a, b);
    let bc = MotorModel::product(b, c);
    lemma_mul_unary_negation(a.e12, b.e13);
    lemma_mul_unary_negation(a.e12 * b.e13, c.e12);
    lemma_mul_is_distributive_add_other_way(c.e12, -a.e12 * b.e13, a.s * b.e23);
    lemma_mul_is_distributive_add_other_way(c.e12, -a.e12 * b.e13 + a.s * b.e23, a.e13 * b.e12);
    lemma_mul_is_distributive_add_other_way(c.e12, -a.e12 * b.e13 + a.s * b.e23 + a.e13 * b.e12, a.e23 * b.s);
    lemma_mul_unary_negation(ab.e23, c.e12);
    lemma_mul_unary_negation(a.e12, b.e12);
    lemma_mul_unary_negation(a.e12 * b.e12, c.e13);
    lemma_mul_is_distributive_sub_other_way(c.e13, -a.e12 * b.e12, a.e13 * b.e13);
    lemma_mul_is_distributive_sub_other_way(c.e13, -a.e12 * b.e12 - a.e13 * b.e13, a.e23 * b.e23);
    lemma_mul_is_distributive_add_other_way(c.e13, -a.e12 * b.e12 - a.e13 * b.e13 - a.e23 * b.e23, a.s * b.s);
    lemma_mul_unary_negation(a.e13, b.e23);
    lemma_mul_unary_negation(a.e13 * b.e23, c.e23);
    lemma_mul_is_distributive_add_other_way(c.e23, -a.e13 * b.e23, a.s * b.e12);
    lemma_mul_is_distributive_add_other_way(c.e23, -a.e13 * b.e23 + a.s * b.e12, a.e12 * b.s);
    lemma_mul_is_distributive_add_other_way(c.e23, -a.e13 * b.e23 + a.s * b.e12 + a.e12 * b.s, a.e23 * b.e13);
    lemma_mul_unary_negation(a.e23, b.e12);
    lemma_mul_unary_negation(a.e23 * b.e12, c.s);
    lemma_mul_is_distributive_add_other_way(c.s, -a.e23 * b.e12, a.s * b.e13);
    lemma_mul_is_distributive_add_other_way(c.s, -a.e23 * b.e12 + a.s * b.e13, a.e12 * b.e23);
    lemma_mul_is_distributive_add_other_way(c.s, -a.e23 * b.e12 + a.s * b.e13 + a.e12 * b.e23, a.e13 * b.s);
    lemma_mul_is_associative(a.e23, b.e13, c.e23);
    lemma_mul_is_associative(a.e23, b.s, c.e12);
    lemma_mul_is_associative(a.e23, b.e12, c.s);
    lemma_mul_is_associative(a.e23, b.e23, c.e13);
    lemma_mul_unary_negation(b.e13, c.e23);
    lemma_mul_unary_negation(a.e23, b.e13 * c.e23);
    lemma_mul_is_distributive_add(a.e23, -b.e13 * c.e23, b.s * c.e12);
    lemma_mul_is_distributive_add(a.e23, -b.e13 * c.e23 + b.s * c.e12, b.e12 * c.s);
    lemma_mul_is_distributive_add(a.e23, -b.e13 * c.e23 + b.s * c.e12 + b.e12 * c.s, b.e23 * c.e13);
    lemma_mul_unary_negation(a.e23, bc.e12);
    lemma_mul_is_associative(a.s, b.e23, c.e12);
    lemma_mul_is_associative(a.s, b.s, c.e13);
    lemma_mul_is_associative(a.s, b.e12, c.e23);
    lemma_mul_is_associative(a.s, b.e13, c.s);
    lemma_mul_unary_negation(b.e23, c.e12);
    lemma_mul_unary_negation(a.s, b.e23 * c.e12);
    lemma_mul_is_distributive_add(a.s, -b.e23 * c.e12, b.s * c.e13);
    lemma_mul_is_distributive_add(a.s, -b.e23 * c.e12 + b.s * c.e13, b.e12 * c.e23);
    lemma_mul_is_distributive_add(a.s, -b.e23 * c.e12 + b.s * c.e13 + b.e12 * c.e23, b.e13 * c.s);
    lemma_mul_is_associative(a.e12, b.e12, c.e13);
    lemma_mul_is_associative(a.e12, b.s, c.e23);
    lemma_mul_is_associative(a.e12, b.e13, c.e12);
    lemma_mul_is_associative(a.e12, b.e23, c.s);
    lemma_mul_unary_negation(b.e12, c.e13);
    lemma_mul_unary_negation(a.e12, b.e12 * c.e13);
    lemma_mul_is_distributive_add(a.e12, -b.e12 * c.e13, b.s * c.e23);
    lemma_mul_is_distributive_add(a.e12, -b.e12 * c.e13 + b.s * c.e23, b.e13 * c.e12);
    lemma_mul_is_distributive_add(a.e12, -b.e12 * c.e13 + b.s * c.e23 + b.e13 * c.e12, b.e23 * c.s);
    lemma_mul_is_associative(a.e13, b.e12, c.e12);
    lemma_mul_is_associative(a.e13, b.e13, c.e13);
    lemma_mul_is_associative(a.e13, b.e23, c.e23);
    lemma_mul_is_associative(a.e13, b.s, c.s);
    lemma_mul_unary_negation(b.e12, c.e12);
    lemma_mul_unary_negation(a.e13, b.e12 * c.e12);
    lemma_mul_is_distributive_sub(a.e13, -b.e12 * c.e12, b.e13 * c.e13);
    lemma_mul_is_distributive_sub(a.e13, -b.e12 * c.e12 - b.e13 * c.e13, b.e23 * c.e23);
    lemma_mul_is_distributive_add(a.e13, -b.e12 * c.e12 - b.e13 * c.e13 - b.e23 * c.e23, b.s * c.s);
    assert(MotorModel::product(ab, c).e13 == a.e12 * b.e13 * c.e12 + a.s * b.s * c.e13 + a.s * b.e12 * c.e23 + a.e12 * b.s * c.e23 + a.e23 * b.e13 * c.e23 + a.s * b.e13 * c.s + a.e12 * b.e23 * c.s + a.e13 * b.s * c.s - a.s * b.e23 * c.e12 - a.e13 * b.e12 * c.e12 - a.e23 * b.s * c.e12 - a.e12 * b.e12 * c.e13 - a.e13 * b.e13 * c.e13 - a.e23 * b.e23 * c.e13 - a.e13 * b.e23 * c.e23 - a.e23 * b.e12 * c.s);
    assert(MotorModel::product(a, bc).e13 == a.e23 * b.e13 * c.e23 + a.s * b.s * c.e13 + a.s * b.e12 * c.e23 + a.s * b.e13 * c.s + a.e12 * b.s * c.e23 + a.e12 * b.e13 * c.e12 + a.e12 * b.e23 * c.s + a.e13 * b.s * c.s - a.e23 * b.s * c.e12 - a.e23 * b.e12 * c.s - a.e23 * b.e23 * c.e13 - a.s * b.e23 * c.e12 - a.e12 * b.e12 * c.e13 - a.e13 * b.e12 * c.e12 - a.e13 * b.e13 * c.e13 - a.e13 * b.e23 * c.e23);
}

/// One coefficient of the associativity law: both nestings expand to
/// the same signed sum of triple products.
proof fn lemma_assoc_e23(a: MotorModel, b: MotorModel, c: MotorModel)
    ensures
        MotorModel::product(MotorModel::product(a, b), c).e23 == MotorModel::product(
            a,
            MotorModel::product(b, c),
        ).e23,
{
    let ab = MotorModel::product(a, b);
    let bc = MotorModel::product(b, c);
    lemma_mul_unary_negation(a.e13, b.e23);
    lemma_mul_unary_negation(a.e13 * b.e23, c.e13);
    lemma_mul_is_distributive_add_other_way(c.e13, -a.e13 * b.e23, a.s * b.e12);
    lemma_mul_is_distributive_add_other_way(c.e13, -a.e13 * b.e23 + a.s * b.e12, a.e12 * b.s);
    lemma_mul_is_distributive_add_other_way(c.e13, -a.e13 * b.e23 + a.s * b.e12 + a.e12 * b.s, a.e23 * b.e13);
    lemma_mul_unary_negation(ab.e12, c.e13);
    lemma_mul_unary_negation(a.e12, b.e12);
    lemma_mul_unary_negation(a.e12 * b.e12, c.e23);
    lemma_mul_is_distributive_sub_other_way(c.e23, -a.e12 * b.e12, a.e13 * b.e13);
    lemma_mul_is_distributive_sub_other_way(c.e23, -a.e12 * b.e12 - a.e13 * b.e13, a.e23 * b.e23);
    lemma_mul_is_distributive_add_other_way(c.e23, -a.e12 * b.e12 - a.e13 * b.e13 - a.e23 * b.e23, a.s * b.s);
    lemma_mul_unary_negation(a.e23, b.e12);
    lemma_mul_unary_negation(a.e23 * b.e12, c.e12);
    lemma_mul_is_distributive_add_other_way(c.e12, -a.e23 * b.e12, a.s * b.e13);
    lemma_mul_is_distributive_add_other_way(c.e12, -a.e23 * b.e12 + a.s * b.e13, a.e12 * b.e23);
    lemma_mul_is_distributive_add_other_way(c.e12, -a.e23 * b.e12 + a.s * b.e13 + a.e12 * b.e23, a.e13 * b.s);
    lemma_mul_unary_negation(a.e12, b.e13);
    lemma_mul_unary_negation(a.e12 * b.e13, c.s);
    lemma_mul_is_distributive_add_other_way(c.s, -a.e12 * b.e13, a.s * b.e23);
    lemma_mul_is_distributive_add_other_way(c.s, -a.e12 * b.e13 + a.s * b.e23, a.e13 * b.e12);
    lemma_mul_is_distributive_add_other_way(c.s, -a.e12 * b.e13 + a.s * b.e23 + a.e13 * b.e12, a.e23 * b.s);
    lemma_mul_is_associative(a.e12, b.e23, c.e12);
    lemma_mul_is_associative(a.e12, b.s, c.e13);
    lemma_mul_is_associative(a.e12, b.e12, c.e23);
    lemma_mul_is_associative(a.e12, b.e13, c.s);
    lemma_mul_unary_negation(b.e23, c.e12);
    lemma_mul_unary_negation(a.e12, b.e23 * c.e12);
    lemma_mul_is_distributive_add(a.e12, -b.e23 * c.e12, b.s * c.e13);
    lemma_mul_is_distributive_add(a.e12, -b.e23 * c.e12 + b.s * c.e13, b.e12 * c.e23);
    lemma_mul_is_distributive_add(a.e12, -b.e23 * c.e12 + b.s * c.e13 + b.e12 * c.e23, b.e13 * c.s);
    lemma_mul_unary_negation(a.e12, bc.e13);
    lemma_mul_is_associative(a.s, b.e12, c.e13);
    lemma_mul_is_associative(a.s, b.s, c.e23);
    lemma_mul_is_associative(a.s, b.e13, c.e12);
    lemma_mul_is_associative(a.s, b.e23, c.s);
    lemma_mul_unary_negation(b.e12, c.e13);
    lemma_mul_unary_negation(a.s, b.e12 * c.e13);
    lemma_mul_is_distributive_add(a.s, -b.e12 * c.e13, b.s * c.e23);
    lemma_mul_is_distributive_add(a.s, -b.e12 * c.e13 + b.s * c.e23, b.e13 * c.e12);
    lemma_mul_is_distributive_add(a.s, -b.e12 * c.e13 + b.s * c.e23 + b.e13 * c.e12, b.e23 * c.s);
    lemma_mul_is_associative(a.e13, b.e13, c.e23);
    lemma_mul_is_associative(a.e13, b.s, c.e12);
    lemma_mul_is_associative(a.e13, b.e12, c.s);
    lemma_mul_is_associative(a.e13, b.e23, c.e13);
    lemma_mul_unary_negation(b.e13, c.e23);
    lemma_mul_unary_negation(a.e13, b.e13 * c.e23);
    lemma_mul_is_distributive_add(a.e13, -b.e13 * c.e23, b.s * c.e12);
    lemma_mul_is_distributive_add(a.e13, -b.e13 * c.e23 + b.s * c.e12, b.e12 * c.s);
    lemma_mul_is_distributive_add(a.e13, -b.e13 * c.e23 + b.s * c.e12 + b.e12 * c.s, b.e23 * c.e13);
    lemma_mul_is_associative(a.e23, b.e12, c.e12);
    lemma_mul_is_associative(a.e23, b.e13, c.e13);
    lemma_mul_is_associative(a.e23, b.e23, c.e23);
    lemma_mul_is_associative(a.e23, b.s, c.s);
    lemma_mul_unary_negation(b.e12, c.e12);
    lemma_mul_unary_negation(a.e23, b.e12 * c.e12);
    lemma_mul_is_distributive_sub(a.e23, -b.e12 * c.e12, b.e13 * c.e13);
    lemma_mul_is_distributive_sub(a.e23, -b.e12 * c.e12 - b.e13 * c.e13, b.e23 * c.e23);
    lemma_mul_is_distributive_add(a.e23, -b.e12 * c.e12 - b.e13 * c.e13 - b.e23 * c.e23, b.s * c.s);
    assert(MotorModel::product(ab, c).e23 == a.e13 * b.e23 * c.e13 + a.s * b.s * c.e23 + a.s * b.e13 * c.e12 + a.e12 * b.e23 * c.e12 + a.e13 * b.s * c.e12 + a.s * b.e23 * c.s + a.e13 * b.e12 * c.s + a.e23 * b.s * c.s - a.s * b.e12 * c.e13 - a.e12 * b.s * c.e13 - a.e23 * b.e13 * c.e13 - a.e12 * b.e12 * c.e23 - a.e13 * b.e13 * c.e23 - a.e23 * b.e23 * c.e23 - a.e23 * b.e12 * c.e12 - a.e12 * b.e13 * c.s);
    assert(MotorModel::product(a, bc).e23 == a.e12 * b.e23 * c.e12 + a.s * b.s * c.e23 + a.s * b.e13 * c.e12 + a.s * b.e23 * c.s + a.e13 * b.s * c.e12 + a.e13 * b.e12 * c.s + a.e13 * b.e23 * c.e13 + a.e23 * b.s * c.s - a.e12 * b.s * c.e13 - a.e12 * b.e12 * c.e23 - a.e12 * b.e13 * c.s - a.s * b.e12 * c.e13 - a.e13 * b.e13 * c.e23 - a.e23 * b.e12 * c.e12 - a.e23 * b.e13 * c.e13 - a.e23 * b.e23 * c.e23);
}

/// One coefficient of the associativity law: both nestings expand to
/// the same signed sum of triple products.
proof fn lemma_assoc_e01(a: MotorModel, b: MotorModel, c: MotorModel)
    ensures
        MotorModel::product(MotorModel::product(a, b), c).e01 == MotorModel::product(
            a,
            MotorModel::product(b, c),
        ).e01,
{
    let ab = MotorModel::product(a, b);
    let bc = MotorModel::product(b, c);
    lemma_mul_unary_negation(a.e12, b.e13);
    lemma_mul_unary_negation(a.e12 * b.e13, c.e0123);
    lemma_mul_is_distributive_add_other_way(c.e0123, -a.e12 * b.e13, a.s * b.e23);
    lemma_mul_is_distributive_add_other_way(c.e0123, -a.e12 * b.e13 + a.s * b.e23, a.e13 * b.e12);
    lemma_mul_is_distributive_add_other_way(c.e0123, -a.e12 * b.e13 + a.s * b.e23 + a.e13 * b.e12, a.e23 * b.s);
    lemma_mul_unary_negation(ab.e23, c.e0123);
    lemma_mul_unary_negation(a.e12, b.e01);
    lemma_mul_unary_negation(a.e12 * b.e01, c.e12);
    lemma_mul_is_distributive_sub_other_way(c.e12, -a.e12 * b.e01, a.e03 * b.e23);
    lemma_mul_is_distributive_add_other_way(c.e12, -a.e12 * b.e01 - a.e03 * b.e23, a.s * b.e02);
    lemma_mul_is_distributive_add_other_way(c.e12, -a.e12 * b.e01 - a.e03 * b.e23 + a.s * b.e02, a.e13 * b.e0123);
    lemma_mul_is_distributive_add_other_way(c.e12, -a.e12 * b.e01 - a.e03 * b.e23 + a.s * b.e02 + a.e13 * b.e0123, a.e23 * b.e03);
    lemma_mul_is_distributive_add_other_way(c.e12, -a.e12 * b.e01 - a.e03 * b.e23 + a.s * b.e02 + a.e13 * b.e0123 + a.e23 * b.e03, a.e01 * b.e12);
    lemma_mul_is_distributive_add_other_way(c.e12, -a.e12 * b.e01 - a.e03 * b.e23 + a.s * b.e02 + a.e13 * b.e0123 + a.e23 * b.e03 + a.e01 * b.e12, a.e02 * b.s);
    lemma_mul_is_distributive_add_other_way(c.e12, -a.e12 * b.e01 - a.e03 * b.e23 + a.s * b.e02 + a.e13 * b.e0123 + a.e23 * b.e03 + a.e01 * b.e12 + a.e02 * b.s, a.e0123 * b.e13);
    lemma_mul_unary_negation(a.e12, b.e0123);
    lemma_mul_unary_negation(a.e12 * b.e0123, c.e13);
    lemma_mul_is_distributive_sub_other_way(c.e13, -a.e12 * b.e0123, a.e13 * b.e01);
    lemma_mul_is_distributive_sub_other_way(c.e13, -a.e12 * b.e0123 - a.e13 * b.e01, a.e23 * b.e02);
    lemma_mul_is_distributive_sub_other_way(c.e13, -a.e12 * b.e0123 - a.e13 * b.e01 - a.e23 * b.e02, a.e0123 * b.e12);
    lemma_mul_is_distributive_add_other_way(c.e13, -a.e12 * b.e0123 - a.e13 * b.e01 - a.e23 * b.e02 - a.e0123 * b.e12, a.s * b.e03);
    lemma_mul_is_distributive_add_other_way(c.e13, -a.e12 * b.e0123 - a.e13 * b.e01 - a.e23 * b.e02 - a.e0123 * b.e12 + a.s * b.e03, a.e01 * b.e13);
    lemma_mul_is_distributive_add_other_way(c.e13, -a.e12 * b.e0123 - a.e13 * b.e01 - a.e23 * b.e02 - a.e0123 * b.e12 + a.s * b.e03 + a.e01 * b.e13, a.e02 * b.e23);
    lemma_mul_is_distributive_add_other_way(c.e13, -a.e12 * b.e0123 - a.e13 * b.e01 - a.e23 * b.e02 - a.e0123 * b.e12 + a.s * b.e03 + a.e01 * b.e13 + a.e02 * b.e23, a.e03 * b.s);
    lemma_mul_unary_negation(a.e13, b.e02);
    lemma_mul_unary_negation(a.e13 * b.e02, c.e23);
    lemma_mul_is_distributive_sub_other_way(c.e23, -a.e13 * b.e02, a.e02 * b.e13);
    lemma_mul_is_distributive_add_other_way(c.e23, -a.e13 * b.e02 - a.e02 * b.e13, a.s * b.e0123);
    lemma_mul_is_distributive_add_other_way(c.e23, -a.e13 * b.e02 - a.e02 * b.e13 + a.s * b.e0123, a.e12 * b.e03);
    lemma_mul_is_distributive_add_other_way(c.e23, -a.e13 * b.e02 - a.e02 * b.e13 + a.s * b.e0123 + a.e12 * b.e03, a.e23 * b.e01);
    lemma_mul_is_distributive_add_other_way(c.e23, -a.e13 * b.e02 - a.e02 * b.e13 + a.s * b.e0123 + a.e12 * b.e03 + a.e23 * b.e01, a.e01 * b.e23);
    lemma_mul_is_distributive_add_other_way(c.e23, -a.e13 * b.e02 - a.e02 * b.e13 + a.s * b.e0123 + a.e12 * b.e03 + a.e23 * b.e01 + a.e01 * b.e23, a.e03 * b.e12);
    lemma_mul_is_distributive_add_other_way(c.e23, -a.e13 * b.e02 - a.e02 * b.e13 + a.s * b.e0123 + a.e12 * b.e03 + a.e23 * b.e01 + a.e01 * b.e23 + a.e03 * b.e12, a.e0123 * b.s);
    lemma_mul_unary_negation(a.e12, b.e12);
    lemma_mul_unary_negation(a.e12 * b.e12, c.e01);
    lemma_mul_is_distributive_sub_other_way(c.e01, -a.e12 * b.e12, a.e13 * b.e13);
    lemma_mul_is_distributive_sub_other_way(c.e01, -a.e12 * b.e12 - a.e13 * b.e13, a.e23 * b.e23);
    lemma_mul_is_distributive_add_other_way(c.e01, -a.e12 * b.e12 - a.e13 * b.e13 - a.e23 * b.e23, a.s * b.s);
    lemma_mul_unary_negation(a.e13, b.e23);
    lemma_mul_unary_negation(a.e13 * b.e23, c.e02);
    lemma_mul_is_distributive_add_other_way(c.e02, -a.e13 * b.e23, a.s * b.e12);
    lemma_mul_is_distributive_add_other_way(c.e02, -a.e13 * b.e23 + a.s * b.e12, a.e12 * b.s);
    lemma_mul_is_distributive_add_other_way(c.e02, -a.e13 * b.e23 + a.s * b.e12 + a.e12 * b.s, a.e23 * b.e13);
    lemma_mul_unary_negation(a.e23, b.e12);
    lemma_mul_unary_negation(a.e23 * b.e12, c.e03);
    lemma_mul_is_distributive_add_other_way(c.e03, -a.e23 * b.e12, a.s * b.e13);
    lemma_mul_is_distributive_add_other_way(c.e03, -a.e23 * b.e12 + a.s * b.e13, a.e12 * b.e23);
    lemma_mul_is_distributive_add_other_way(c.e03, -a.e23 * b.e12 + a.s * b.e13 + a.e12 * b.e23, a.e13 * b.s);
    lemma_mul_unary_negation(a.e23, b.e0123);
    lemma_mul_unary_negation(a.e23 * b.e0123, c.s);
    lemma_mul_is_distributive_sub_other_way(c.s, -a.e23 * b.e0123, a.e02 * b.e12);
    lemma_mul_is_distributive_sub_other_way(c.s, -a.e23 * b.e0123 - a.e02 * b.e12, a.e03 * b.e13);
    lemma_mul_is_distributive_sub_other_way(c.s, -a.e23 * b.e0123 - a.e02 * b.e12 - a.e03 * b.e13, a.e0123 * b.e23);
    lemma_mul_is_distributive_add_other_way(c.s, -a.e23 * b.e0123 - a.e02 * b.e12 - a.e03 * b.e13 - a.e0123 * b.e23, a.s * b.e01);
    lemma_mul_is_distributive_add_other_way(c.s, -a.e23 * b.e0123 - a.e02 * b.e12 - a.e03 * b.e13 - a.e0123 * b.e23 + a.s * b.e01, a.e12 * b.e02);
    lemma_mul_is_distributive_add_other_way(c.s, -a.e23 * b.e0123 - a.e02 * b.e12 - a.e03 * b.e13 - a.e0123 * b.e23 + a.s * b.e01 + a.e12 * b.e02, a.e13 * b.e03);
    lemma_mul_is_distributive_add_other_way(c.s, -a.e23 * b.e0123 - a.e02 * b.e12 - a.e03 * b.e13 - a.e0123 * b.e23 + a.s * b.e01 + a.e12 * b.e02 + a.e13 * b.e03, a.e01 * b.s);
    lemma_mul_is_associative(a.e23, b.e13, c.e02);
    lemma_mul_is_associative(a.e23, b.e02, c.e13);
    lemma_mul_is_associative(a.e23, b.s, c.e0123);
    lemma_mul_is_associative(a.e23, b.e12, c.e03);
    lemma_mul_is_associative(a.e23, b.e23, c.e01);
    lemma_mul_is_associative(a.e23, b.e01, c.e23);
    lemma_mul_is_associative(a.e23, b.e03, c.e12);
    lemma_mul_is_associative(a.e23, b.e0123, c.s);
    lemma_mul_unary_negation(b.e13, c.e02);
    lemma_mul_unary_negation(a.e23, b.e13 * c.e02);
    lemma_mul_is_distributive_sub(a.e23, -b.e13 * c.e02, b.e02 * c.e13);
    lemma_mul_is_distributive_add(a.e23, -b.e13 * c.e02 - b.e02 * c.e13, b.s * c.e0123);
    lemma_mul_is_distributive_add(a.e23, -b.e13 * c.e02 - b.e02 * c.e13 + b.s * c.e0123, b.e12 * c.e03);
    lemma_mul_is_distributive_add(a.e23, -b.e13 * c.e02 - b.e02 * c.e13 + b.s * c.e0123 + b.e12 * c.e03, b.e23 * c.e01);
    lemma_mul_is_distributive_add(a.e23, -b.e13 * c.e02 - b.e02 * c.e13 + b.s * c.e0123 + b.e12 * c.e03 + b.e23 * c.e01, b.e01 * c.e23);
    lemma_mul_is_distributive_add(a.e23, -b.e13 * c.e02 - b.e02 * c.e13 + b.s * c.e0123 + b.e12 * c.e03 + b.e23 * c.e01 + b.e01 * c.e23, b.e03 * c.e12);
    lemma_mul_is_distributive_add(a.e23, -b.e13 * c.e02 - b.e02 * c.e13 + b.s * c.e0123 + b.e12 * c.e03 + b.e23 * c.e01 + b.e01 * c.e23 + b.e03 * c.e12, b.e0123 * c.s);
    lemma_mul_unary_negation(a.e23, bc.e0123);
    lemma_mul_is_associative(a.e02, b.e13, c.e23);
    lemma_mul_is_associative(a.e02, b.s, c.e12);
    lemma_mul_is_associative(a.e02, b.e12, c.s);
    lemma_mul_is_associative(a.e02, b.e23, c.e13);
    lemma_mul_unary_negation(b.e13, c.e23);
    lemma_mul_unary_negation(a.e02, b.e13 * c.e23);
    lemma_mul_is_distributive_add(a.e02, -b.e13 * c.e23, b.s * c.e12);
    lemma_mul_is_distributive_add(a.e02, -b.e13 * c.e23 + b.s * c.e12, b.e12 * c.s);
    lemma_mul_is_distributive_add(a.e02, -b.e13 * c.e23 + b.s * c.e12 + b.e12 * c.s, b.e23 * c.e13);
    lemma_mul_is_associative(a.e03, b.e23, c.e12);
    lemma_mul_is_associative(a.e03, b.s, c.e13);
    lemma_mul_is_associative(a.e03, b.e12, c.e23);
    lemma_mul_is_associative(a.e03, b.e13, c.s);
    lemma_mul_unary_negation(b.e23, c.e12);
    lemma_mul_unary_negation(a.e03, b.e23 * c.e12);
    lemma_mul_is_distributive_add(a.e03, -b.e23 * c.e12, b.s * c.e13);
    lemma_mul_is_distributive_add(a.e03, -b.e23 * c.e12 + b.s * c.e13, b.e12 * c.e23);
    lemma_mul_is_distributive_add(a.e03, -b.e23 * c.e12 + b.s * c.e13 + b.e12 * c.e23, b.e13 * c.s);
    lemma_mul_is_associative(a.e0123, b.e12, c.e13);
    lemma_mul_is_associative(a.e0123, b.s, c.e23);
    lemma_mul_is_associative(a.e0123, b.e13, c.e12);
    lemma_mul_is_associative(a.e0123, b.e23, c.s);
    lemma_mul_unary_negation(b.e12, c.e13);
    lemma_mul_unary_negation(a.e0123, b.e12 * c.e13);
    lemma_mul_is_distributive_add(a.e0123, -b.e12 * c.e13, b.s * c.e23);
    lemma_mul_is_distributive_add(a.e0123, -b.e12 * c.e13 + b.s * c.e23, b.e13 * c.e12);
    lemma_mul_is_distributive_add(a.e0123, -b.e12 * c.e13 + b.s * c.e23 + b.e13 * c.e12, b.e23 * c.s);
    lemma_mul_is_associative(a.s, b.e23, c.e0123);
    lemma_mul_is_associative(a.s, b.e02, c.e12);
    lemma_mul_is_associative(a.s, b.e03, c.e13);
    lemma_mul_is_associative(a.s, b.e0123, c.e23);
    lemma_mul_is_associative(a.s, b.s, c.e01);
    lemma_mul_is_associative(a.s, b.e12, c.e02);
    lemma_mul_is_associative(a.s, b.e13, c.e03);
    lemma_mul_is_associative(a.s, b.e01, c.s);
    lemma_mul_unary_negation(b.e23, c.e0123);
    lemma_mul_unary_negation(a.s, b.e23 * c.e0123);
    lemma_mul_is_distributive_sub(a.s, -b.e23 * c.e0123, b.e02 * c.e12);
    lemma_mul_is_distributive_sub(a.s, -b.e23 * c.e0123 - b.e02 * c.e12, b.e03 * c.e13);
    lemma_mul_is_distributive_sub(a.s, -b.e23 * c.e0123 - b.e02 * c.e12 - b.e03 * c.e13, b.e0123 * c.e23);
    lemma_mul_is_distributive_add(a.s, -b.e23 * c.e0123 - b.e02 * c.e12 - b.e03 * c.e13 - b.e0123 * c.e23, b.s * c.e01);
    lemma_mul_is_distributive_add(a.s, -b.e23 * c.e0123 - b.e02 * c.e12 - b.e03 * c.e13 - b.e0123 * c.e23 + b.s * c.e01, b.e12 * c.e02);
    lemma_mul_is_distributive_add(a.s, -b.e23 * c.e0123 - b.e02 * c.e12 - b.e03 * c.e13 - b.e0123 * c.e23 + b.s * c.e01 + b.e12 * c.e02, b.e13 * c.e03);
    lemma_mul_is_distributive_add(a.s, -b.e23 * c.e0123 - b.e02 * c.e12 - b.e03 * c.e13 - b.e0123 * c.e23 + b.s * c.e01 + b.e12 * c.e02 + b.e13 * c.e03, b.e01 * c.s);
    lemma_mul_is_associative(a.e12, b.e12, c.e01);
    lemma_mul_is_associative(a.e12, b.e03, c.e23);
    lemma_mul_is_associative(a.e12, b.s, c.e02);
    lemma_mul_is_associative(a.e12, b.e13, c.e0123);
    lemma_mul_is_associative(a.e12, b.e23, c.e03);
    lemma_mul_is_associative(a.e12, b.e01, c.e12);
    lemma_mul_is_associative(a.e12, b.e02, c.s);
    lemma_mul_is_associative(a.e12, b.e0123, c.e13);
    lemma_mul_unary_negation(b.e12, c.e01);
    lemma_mul_unary_negation(a.e12, b.e12 * c.e01);
    lemma_mul_is_distributive_sub(a.e12, -b.e12 * c.e01, b.e03 * c.e23);
    lemma_mul_is_distributive_add(a.e12, -b.e12 * c.e01 - b.e03 * c.e23, b.s * c.e02);
    lemma_mul_is_distributive_add(a.e12, -b.e12 * c.e01 - b.e03 * c.e23 + b.s * c.e02, b.e13 * c.e0123);
    lemma_mul_is_distributive_add(a.e12, -b.e12 * c.e01 - b.e03 * c.e23 + b.s * c.e02 + b.e13 * c.e0123, b.e23 * c.e03);
    lemma_mul_is_distributive_add(a.e12, -b.e12 * c.e01 - b.e03 * c.e23 + b.s * c.e02 + b.e13 * c.e0123 + b.e23 * c.e03, b.e01 * c.e12);
    lemma_mul_is_distributive_add(a.e12, -b.e12 * c.e01 - b.e03 * c.e23 + b.s * c.e02 + b.e13 * c.e0123 + b.e23 * c.e03 + b.e01 * c.e12, b.e02 * c.s);
    lemma_mul_is_distributive_add(a.e12, -b.e12 * c.e01 - b.e03 * c.e23 + b.s * c.e02 + b.e13 * c.e0123 + b.e23 * c.e03 + b.e01 * c.e12 + b.e02 * c.s, b.e0123 * c.e13);
    lemma_mul_is_associative(a.e13, b.e12, c.e0123);
    lemma_mul_is_associative(a.e13, b.e13, c.e01);
    lemma_mul_is_associative(a.e13, b.e23, c.e02);
    lemma_mul_is_associative(a.e13, b.e0123, c.e12);
    lemma_mul_is_associative(a.e13, b.s, c.e03);
    lemma_mul_is_associative(a.e13, b.e01, c.e13);
    lemma_mul_is_associative(a.e13, b.e02, c.e23);
    lemma_mul_is_associative(a.e13, b.e03, c.s);
    lemma_mul_unary_negation(b.e12, c.e0123);
    lemma_mul_unary_negation(a.e13, b.e12 * c.e0123);
    lemma_mul_is_distributive_sub(a.e13, -b.e12 * c.e0123, b.e13 * c.e01);
    lemma_mul_is_distributive_sub(a.e13, -b.e12 * c.e0123 - b.e13 * c.e01, b.e23 * c.e02);
    lemma_mul_is_distributive_sub(a.e13, -b.e12 * c.e0123 - b.e13 * c.e01 - b.e23 * c.e02, b.e0123 * c.e12);
    lemma_mul_is_distributive_add(a.e13, -b.e12 * c.e0123 - b.e13 * c.e01 - b.e23 * c.e02 - b.e0123 * c.e12, b.s * c.e03);
    lemma_mul_is_distributive_add(a.e13, -b.e12 * c.e0123 - b.e13 * c.e01 - b.e23 * c.e02 - b.e0123 * c.e12 + b.s * c.e03, b.e01 * c.e13);
    lemma_mul_is_distributive_add(a.e13, -b.e12 * c.e0123 - b.e13 * c.e01 - b.e23 * c.e02 - b.e0123 * c.e12 + b.s * c.e03 + b.e01 * c.e13, b.e02 * c.e23);
    lemma_mul_is_distributive_add(a.e13, -b.e12 * c.e0123 - b.e13 * c.e01 - b.e23 * c.e02 - b.e0123 * c.e12 + b.s * c.e03 + b.e01 * c.e13 + b.e02 * c.e23, b.e03 * c.s);
    lemma_mul_is_associative(a.e01, b.e12, c.e12);
    lemma_mul_is_associative(a.e01, b.e13, c.e13);
    lemma_mul_is_associative(a.e01, b.e23, c.e23);
    lemma_mul_is_associative(a.e01, b.s, c.s);
    lemma_mul_unary_negation(b.e12, c.e12);
    lemma_mul_unary_negation(a.e01, b.e12 * c.e12);
    lemma_mul_is_distributive_sub(a.e01, -b.e12 * c.e12, b.e13 * c.e13);
    lemma_mul_is_distributive_sub(a.e01, -b.e12 * c.e12 - b.e13 * c.e13, b.e23 * c.e23);
    lemma_mul_is_distributive_add(a.e01, -b.e12 * c.e12 - b.e13 * c.e13 - b.e23 * c.e23, b.s * c.s);
    assert(MotorModel::product(ab, c).e01 == a.e12 * b.e13 * c.e0123 + a.e12 * b.e01 * c.e12 + a.e03 * b.e23 * c.e12 + a.e12 * b.e0123 * c.e13 + a.e13 * b.e01 * c.e13 + a.e23 * b.e02 * c.e13 + a.e0123 * b.e12 * c.e13 + a.e13 * b.e02 * c.e23 + a.e02 * b.e13 * c.e23 + a.s * b.s * c.e01 + a.s * b.e12 * c.e02 + a.e12 * b.s * c.e02 + a.e23 * b.e13 * c.e02 + a.s * b.e13 * c.e03 + a.e12 * b.e23 * c.e03 + a.e13 * b.s * c.e03 + a.s * b.e01 * c.s + a.e12 * b.e02 * c.s + a.e13 * b.e03 * c.s + a.e01 * b.s * c.s - a.s * b.e23 * c.e0123 - a.e13 * b.e12 * c.e0123 - a.e23 * b.s * c.e0123 - a.s * b.e02 * c.e12 - a.e13 * b.e0123 * c.e12 - a.e23 * b.e03 * c.e12 - a.e01 * b.e12 * c.e12 - a.e02 * b.s * c.e12 - a.e0123 * b.e13 * c.e12 - a.s * b.e03 * c.e13 - a.e01 * b.e13 * c.e13 - a.e02 * b.e23 * c.e13 - a.e03 * b.s * c.e13 - a.s * b.e0123 * c.e23 - a.e12 * b.e03 * c.e23 - a.e23 * b.e01 * c.e23 - a.e01 * b.e23 * c.e23 - a.e03 * b.e12 * c.e23 - a.e0123 * b.s * c.e23 - a.e12 * b.e12 * c.e01 - a.e13 * b.e13 * c.e01 - a.e23 * b.e23 * c.e01 - a.e13 * b.e23 * c.e02 - a.e23 * b.e12 * c.e03 - a.e23 * b.e0123 * c.s - a.e02 * b.e12 * c.s - a.e03 * b.e13 * c.s - a.e0123 * b.e23 * c.s);
    assert(MotorModel::product(a, bc).e01 == a.e23 * b.e13 * c.e02 + a.e23 * b.e02 * c.e13 + a.e02 * b.e13 * c.e23 + a.e03 * b.e23 * c.e12 + a.e0123 * b.e12 * c.e13 + a.s * b.s * c.e01 + a.s * b.e12 * c.e02 + a.s * b.e13 * c.e03 + a.s * b.e01 * c.s + a.e12 * b.s * c.e02 + a.e12 * b.e13 * c.e0123 + a.e12 * b.e23 * c.e03 + a.e12 * b.e01 * c.e12 + a.e12 * b.e02 * c.s + a.e12 * b.e0123 * c.e13 + a.e13 * b.s * c.e03 + a.e13 * b.e01 * c.e13 + a.e13 * b.e02 * c.e23 + a.e13 * b.e03 * c.s + a.e01 * b.s * c.s - a.e23 * b.s * c.e0123 - a.e23 * b.e12 * c.e03 - a.e23 * b.e23 * c.e01 - a.e23 * b.e01 * c.e23 - a.e23 * b.e03 * c.e12 - a.e23 * b.e0123 * c.s - a.e02 * b.s * c.e12 - a.e02 * b.e12 * c.s - a.e02 * b.e23 * c.e13 - a.e03 * b.s * c.e13 - a.e03 * b.e12 * c.e23 - a.e03 * b.e13 * c.s - a.e0123 * b.s * c.e23 - a.e0123 * b.e13 * c.e12 - a.e0123 * b.e23 * c.s - a.s * b.e23 * c.e0123 - a.s * b.e02 * c.e12 - a.s * b.e03 * c.e13 - a.s * b.e0123 * c.e23 - a.e12 * b.e12 * c.e01 - a.e12 * b.e03 * c.e23 - a.e13 * b.e12 * c.e0123 - a.e13 * b.e13 * c.e01 - a.e13 * b.e23 * c.e02 - a.e13 * b.e0123 * c.e12 - a.e01 * b.e12 * c.e12 - a.e01 * b.e13 * c.e13 - a.e01 * b.e23 * c.e23);
}

/// One coefficient of the associativity law: both nestings expand to
/// the same signed sum of triple products.
proof fn lemma_assoc_e02(a: MotorModel, b: MotorModel, c: MotorModel)
    ensures
        MotorModel::product(MotorModel::product(a, b), c).e02 == MotorModel::product(
            a,
            MotorModel::product(b, c),
        ).e02,
{
    let ab = MotorModel::product(a, b);
    let bc = MotorModel::product(b, c);
    lemma_mul_unary_negation(a.e13, b.e23);
    lemma_mul_unary_negation(a.e13 * b.e23, c.e01);
    lemma_mul_is_distributive_add_other_way(c.e01, -a.e13 * b.e23, a.s * b.e12);
    lemma_mul_is_distributive_add_other_way(c.e01, -a.e13 * b.e23 + a.s * b.e12, a.e12 * b.s);
    lemma_mul_is_distributive_add_other_way(c.e01, -a.e13 * b.e23 + a.s * b.e12 + a.e12 * b.s, a.e23 * b.e13);
    lemma_mul_unary_negation(ab.e12, c.e01);
    lemma_mul_unary_negation(a.e12, b.e0123);
    lemma_mul_unary_negation(a.e12 * b.e0123, c.e23);
    lemma_mul_is_distributive_sub_other_way(c.e23, -a.e12 * b.e0123, a.e13 * b.e01);
    lemma_mul_is_distributive_sub_other_way(c.e23, -a.e12 * b.e0123 - a.e13 * b.e01, a.e23 * b.e02);
    lemma_mul_is_distributive_sub_other_way(c.e23, -a.e12 * b.e0123 - a.e13 * b.e01 - a.e23 * b.e02, a.e0123 * b.e12);
    lemma_mul_is_distributive_add_other_way(c.e23, -a.e12 * b.e0123 - a.e13 * b.e01 - a.e23 * b.e02 - a.e0123 * b.e12, a.s * b.e03);
    lemma_mul_is_distributive_add_other_way(c.e23, -a.e12 * b.e0123 - a.e13 * b.e01 - a.e23 * b.e02 - a.e0123 * b.e12 + a.s * b.e03, a.e01 * b.e13);
    lemma_mul_is_distributive_add_other_way(c.e23, -a.e12 * b.e0123 - a.e13 * b.e01 - a.e23 * b.e02 - a.e0123 * b.e12 + a.s * b.e03 + a.e01 * b.e13, a.e02 * b.e23);
    lemma_mul_is_distributive_add_other_way(c.e23, -a.e12 * b.e0123 - a.e13 * b.e01 - a.e23 * b.e02 - a.e0123 * b.e12 + a.s * b.e03 + a.e01 * b.e13 + a.e02 * b.e23, a.e03 * b.s);
    lemma_mul_unary_negation(a.e12, b.e12);
    lemma_mul_unary_negation(a.e12 * b.e12, c.e02);
    lemma_mul_is_distributive_sub_other_way(c.e02, -a.e12 * b.e12, a.e13 * b.e13);
    lemma_mul_is_distributive_sub_other_way(c.e02, -a.e12 * b.e12 - a.e13 * b.e13, a.e23 * b.e23);
    lemma_mul_is_distributive_add_other_way(c.e02, -a.e12 * b.e12 - a.e13 * b.e13 - a.e23 * b.e23, a.s * b.s);
    lemma_mul_unary_negation(a.e23, b.e12);
    lemma_mul_unary_negation(a.e23 * b.e12, c.e0123);
    lemma_mul_is_distributive_add_other_way(c.e0123, -a.e23 * b.e12, a.s * b.e13);
    lemma_mul_is_distributive_add_other_way(c.e0123, -a.e23 * b.e12 + a.s * b.e13, a.e12 * b.e23);
    lemma_mul_is_distributive_add_other_way(c.e0123, -a.e23 * b.e12 + a.s * b.e13 + a.e12 * b.e23, a.e13 * b.s);
    lemma_mul_unary_negation(a.e12, b.e13);
    lemma_mul_unary_negation(a.e12 * b.e13, c.e03);
    lemma_mul_is_distributive_add_other_way(c.e03, -a.e12 * b.e13, a.s * b.e23);
    lemma_mul_is_distributive_add_other_way(c.e03, -a.e12 * b.e13 + a.s * b.e23, a.e13 * b.e12);
    lemma_mul_is_distributive_add_other_way(c.e03, -a.e12 * b.e13 + a.s * b.e23 + a.e13 * b.e12, a.e23 * b.s);
    lemma_mul_unary_negation(a.e23, b.e0123);
    lemma_mul_unary_negation(a.e23 * b.e0123, c.e12);
    lemma_mul_is_distributive_sub_other_way(c.e12, -a.e23 * b.e0123, a.e02 * b.e12);
    lemma_mul_is_distributive_sub_other_way(c.e12, -a.e23 * b.e0123 - a.e02 * b.e12, a.e03 * b.e13);
    lemma_mul_is_distributive_sub_other_way(c.e12, -a.e23 * b.e0123 - a.e02 * b.e12 - a.e03 * b.e13, a.e0123 * b.e23);
    lemma_mul_is_distributive_add_other_way(c.e12, -a.e23 * b.e0123 - a.e02 * b.e12 - a.e03 * b.e13 - a.e0123 * b.e23, a.s * b.e01);
    lemma_mul_is_distributive_add_other_way(c.e12, -a.e23 * b.e0123 - a.e02 * b.e12 - a.e03 * b.e13 - a.e0123 * b.e23 + a.s * b.e01, a.e12 * b.e02);
    lemma_mul_is_distributive_add_other_way(c.e12, -a.e23 * b.e0123 - a.e02 * b.e12 - a.e03 * b.e13 - a.e0123 * b.e23 + a.s * b.e01 + a.e12 * b.e02, a.e13 * b.e03);
    lemma_mul_is_distributive_add_other_way(c.e12, -a.e23 * b.e0123 - a.e02 * b.e12 - a.e03 * b.e13 - a.e0123 * b.e23 + a.s * b.e01 + a.e12 * b.e02 + a.e13 * b.e03, a.e01 * b.s);
    lemma_mul_unary_negation(a.e12, b.e01);
    lemma_mul_unary_negation(a.e12 * b.e01, c.s);
    lemma_mul_is_distributive_sub_other_way(c.s, -a.e12 * b.e01, a.e03 * b.e23);
    lemma_mul_is_distributive_add_other_way(c.s, -a.e12 * b.e01 - a.e03 * b.e23, a.s * b.e02);
    lemma_mul_is_distributive_add_other_way(c.s, -a.e12 * b.e01 - a.e03 * b.e23 + a.s * b.e02, a.e13 * b.e0123);
    lemma_mul_is_distributive_add_other_way(c.s, -a.e12 * b.e01 - a.e03 * b.e23 + a.s * b.e02 + a.e13 * b.e0123, a.e23 * b.e03);
    lemma_mul_is_distributive_add_other_way(c.s, -a.e12 * b.e01 - a.e03 * b.e23 + a.s * b.e02 + a.e13 * b.e0123 + a.e23 * b.e03, a.e01 * b.e12);
    lemma_mul_is_distributive_add_other_way(c.s, -a.e12 * b.e01 - a.e03 * b.e23 + a.s * b.e02 + a.e13 * b.e0123 + a.e23 * b.e03 + a.e01 * b.e12, a.e02 * b.s);
    lemma_mul_is_distributive_add_other_way(c.s, -a.e12 * b.e01 - a.e03 * b.e23 + a.s * b.e02 + a.e13 * b.e0123 + a.e23 * b.e03 + a.e01 * b.e12 + a.e02 * b.s, a.e0123 * b.e13);
    lemma_mul_unary_negation(a.e13, b.e02);
    lemma_mul_unary_negation(a.e13 * b.e02, c.e13);
    lemma_mul_is_distributive_sub_other_way(c.e13, -a.e13 * b.e02, a.e02 * b.e13);
    lemma_mul_is_distributive_add_other_way(c.e13, -a.e13 * b.e02 - a.e02 * b.e13, a.s * b.e0123);
    lemma_mul_is_distributive_add_other_way(c.e13, -a.e13 * b.e02 - a.e02 * b.e13 + a.s * b.e0123, a.e12 * b.e03);
    lemma_mul_is_distributive_add_other_way(c.e13, -a.e13 * b.e02 - a.e02 * b.e13 + a.s * b.e0123 + a.e12 * b.e03, a.e23 * b.e01);
    lemma_mul_is_distributive_add_other_way(c.e13, -a.e13 * b.e02 - a.e02 * b.e13 + a.s * b.e0123 + a.e12 * b.e03 + a.e23 * b.e01, a.e01 * b.e23);
    lemma_mul_is_distributive_add_other_way(c.e13, -a.e13 * b.e02 - a.e02 * b.e13 + a.s * b.e0123 + a.e12 * b.e03 + a.e23 * b.e01 + a.e01 * b.e23, a.e03 * b.e12);
    lemma_mul_is_distributive_add_other_way(c.e13, -a.e13 * b.e02 - a.e02 * b.e13 + a.s * b.e0123 + a.e12 * b.e03 + a.e23 * b.e01 + a.e01 * b.e23 + a.e03 * b.e12, a.e0123 * b.s);
    lemma_mul_is_associative(a.e12, b.e23, c.e0123);
    lemma_mul_is_associative(a.e12, b.e02, c.e12);
    lemma_mul_is_associative(a.e12, b.e03, c.e13);
    lemma_mul_is_associative(a.e12, b.e0123, c.e23);
    lemma_mul_is_associative(a.e12, b.s, c.e01);
    lemma_mul_is_associative(a.e12, b.e12, c.e02);
    lemma_mul_is_associative(a.e12, b.e13, c.e03);
    lemma_mul_is_associative(a.e12, b.e01, c.s);
    lemma_mul_unary_negation(b.e23, c.e0123);
    lemma_mul_unary_negation(a.e12, b.e23 * c.e0123);
    lemma_mul_is_distributive_sub(a.e12, -b.e23 * c.e0123, b.e02 * c.e12);
    lemma_mul_is_distributive_sub(a.e12, -b.e23 * c.e0123 - b.e02 * c.e12, b.e03 * c.e13);
    lemma_mul_is_distributive_sub(a.e12, -b.e23 * c.e0123 - b.e02 * c.e12 - b.e03 * c.e13, b.e0123 * c.e23);
    lemma_mul_is_distributive_add(a.e12, -b.e23 * c.e0123 - b.e02 * c.e12 - b.e03 * c.e13 - b.e0123 * c.e23, b.s * c.e01);
    lemma_mul_is_distributive_add(a.e12, -b.e23 * c.e0123 - b.e02 * c.e12 - b.e03 * c.e13 - b.e0123 * c.e23 + b.s * c.e01, b.e12 * c.e02);
    lemma_mul_is_distributive_add(a.e12, -b.e23 * c.e0123 - b.e02 * c.e12 - b.e03 * c.e13 - b.e0123 * c.e23 + b.s * c.e01 + b.e12 * c.e02, b.e13 * c.e03);
    lemma_mul_is_distributive_add(a.e12, -b.e23 * c.e0123 - b.e02 * c.e12 - b.e03 * c.e13 - b.e0123 * c.e23 + b.s * c.e01 + b.e12 * c.e02 + b.e13 * c.e03, b.e01 * c.s);
    lemma_mul_unary_negation(a.e12, bc.e01);
    lemma_mul_is_associative(a.e03, b.e12, c.e13);
    lemma_mul_is_associative(a.e03, b.s, c.e23);
    lemma_mul_is_associative(a.e03, b.e13, c.e12);
    lemma_mul_is_associative(a.e03, b.e23, c.s);
    lemma_mul_unary_negation(b.e12, c.e13);
    lemma_mul_unary_negation(a.e03, b.e12 * c.e13);
    lemma_mul_is_distributive_add(a.e03, -b.e12 * c.e13, b.s * c.e23);
    lemma_mul_is_distributive_add(a.e03, -b.e12 * c.e13 + b.s * c.e23, b.e13 * c.e12);
    lemma_mul_is_distributive_add(a.e03, -b.e12 * c.e13 + b.s * c.e23 + b.e13 * c.e12, b.e23 * c.s);
    lemma_mul_is_associative(a.s, b.e12, c.e01);
    lemma_mul_is_associative(a.s, b.e03, c.e23);
    lemma_mul_is_associative(a.s, b.s, c.e02);
    lemma_mul_is_associative(a.s, b.e13, c.e0123);
    lemma_mul_is_associative(a.s, b.e23, c.e03);
    lemma_mul_is_associative(a.s, b.e01, c.e12);
    lemma_mul_is_associative(a.s, b.e02, c.s);
    lemma_mul_is_associative(a.s, b.e0123, c.e13);
    lemma_mul_unary_negation(b.e12, c.e01);
    lemma_mul_unary_negation(a.s, b.e12 * c.e01);
    lemma_mul_is_distributive_sub(a.s, -b.e12 * c.e01, b.e03 * c.e23);
    lemma_mul_is_distributive_add(a.s, -b.e12 * c.e01 - b.e03 * c.e23, b.s * c.e02);
    lemma_mul_is_distributive_add(a.s, -b.e12 * c.e01 - b.e03 * c.e23 + b.s * c.e02, b.e13 * c.e0123);
    lemma_mul_is_distributive_add(a.s, -b.e12 * c.e01 - b.e03 * c.e23 + b.s * c.e02 + b.e13 * c.e0123, b.e23 * c.e03);
    lemma_mul_is_distributive_add(a.s, -b.e12 * c.e01 - b.e03 * c.e23 + b.s * c.e02 + b.e13 * c.e0123 + b.e23 * c.e03, b.e01 * c.e12);
    lemma_mul_is_distributive_add(a.s, -b.e12 * c.e01 - b.e03 * c.e23 + b.s * c.e02 + b.e13 * c.e0123 + b.e23 * c.e03 + b.e01 * c.e12, b.e02 * c.s);
    lemma_mul_is_distributive_add(a.s, -b.e12 * c.e01 - b.e03 * c.e23 + b.s * c.e02 + b.e13 * c.e0123 + b.e23 * c.e03 + b.e01 * c.e12 + b.e02 * c.s, b.e0123 * c.e13);
    lemma_mul_is_associative(a.e13, b.e13, c.e02);
    lemma_mul_is_associative(a.e13, b.e02, c.e13);
    lemma_mul_is_associative(a.e13, b.s, c.e0123);
    lemma_mul_is_associative(a.e13, b.e12, c.e03);
    lemma_mul_is_associative(a.e13, b.e23, c.e01);
    lemma_mul_is_associative(a.e13, b.e01, c.e23);
    lemma_mul_is_associative(a.e13, b.e03, c.e12);
    lemma_mul_is_associative(a.e13, b.e0123, c.s);
    lemma_mul_unary_negation(b.e13, c.e02);
    lemma_mul_unary_negation(a.e13, b.e13 * c.e02);
    lemma_mul_is_distributive_sub(a.e13, -b.e13 * c.e02, b.e02 * c.e13);
    lemma_mul_is_distributive_add(a.e13, -b.e13 * c.e02 - b.e02 * c.e13, b.s * c.e0123);
    lemma_mul_is_distributive_add(a.e13, -b.e13 * c.e02 - b.e02 * c.e13 + b.s * c.e0123, b.e12 * c.e03);
    lemma_mul_is_distributive_add(a.e13, -b.e13 * c.e02 - b.e02 * c.e13 + b.s * c.e0123 + b.e12 * c.e03, b.e23 * c.e01);
    lemma_mul_is_distributive_add(a.e13, -b.e13 * c.e02 - b.e02 * c.e13 + b.s * c.e0123 + b.e12 * c.e03 + b.e23 * c.e01, b.e01 * c.e23);
    lemma_mul_is_distributive_add(a.e13, -b.e13 * c.e02 - b.e02 * c.e13 + b.s * c.e0123 + b.e12 * c.e03 + b.e23 * c.e01 + b.e01 * c.e23, b.e03 * c.e12);
    lemma_mul_is_distributive_add(a.e13, -b.e13 * c.e02 - b.e02 * c.e13 + b.s * c.e0123 + b.e12 * c.e03 + b.e23 * c.e01 + b.e01 * c.e23 + b.e03 * c.e12, b.e0123 * c.s);
    lemma_mul_is_associative(a.e23, b.e12, c.e0123);
    lemma_mul_is_associative(a.e23, b.e13, c.e01);
    lemma_mul_is_associative(a.e23, b.e23, c.e02);
    lemma_mul_is_associative(a.e23, b.e0123, c.e12);
    lemma_mul_is_associative(a.e23, b.s, c.e03);
    lemma_mul_is_associative(a.e23, b.e01, c.e13);
    lemma_mul_is_associative(a.e23, b.e02, c.e23);
    lemma_mul_is_associative(a.e23, b.e03, c.s);
    lemma_mul_unary_negation(b.e12, c.e0123);
    lemma_mul_unary_negation(a.e23, b.e12 * c.e0123);
    lemma_mul_is_distributive_sub(a.e23, -b.e12 * c.e0123, b.e13 * c.e01);
    lemma_mul_is_distributive_sub(a.e23, -b.e12 * c.e0123 - b.e13 * c.e01, b.e23 * c.e02);
    lemma_mul_is_distributive_sub(a.e23, -b.e12 * c.e0123 - b.e13 * c.e01 - b.e23 * c.e02, b.e0123 * c.e12);
    lemma_mul_is_distributive_add(a.e23, -b.e12 * c.e0123 - b.e13 * c.e01 - b.e23 * c.e02 - b.e0123 * c.e12, b.s * c.e03);
    lemma_mul_is_distributive_add(a.e23, -b.e12 * c.e0123 - b.e13 * c.e01 - b.e23 * c.e02 - b.e0123 * c.e12 + b.s * c.e03, b.e01 * c.e13);
    lemma_mul_is_distributive_add(a.e23, -b.e12 * c.e0123 - b.e13 * c.e01 - b.e23 * c.e02 - b.e0123 * c.e12 + b.s * c.e03 + b.e01 * c.e13, b.e02 * c.e23);
    lemma_mul_is_distributive_add(a.e23, -b.e12 * c.e0123 - b.e13 * c.e01 - b.e23 * c.e02 - b.e0123 * c.e12 + b.s * c.e03 + b.e01 * c.e13 + b.e02 * c.e23, b.e03 * c.s);
    lemma_mul_is_associative(a.e01, b.e13, c.e23);
    lemma_mul_is_associative(a.e01, b.s, c.e12);
    lemma_mul_is_associative(a.e01, b.e12, c.s);
    lemma_mul_is_associative(a.e01, b.e23, c.e13);
    lemma_mul_unary_negation(b.e13, c.e23);
    lemma_mul_unary_negation(a.e01, b.e13 * c.e23);
    lemma_mul_is_distributive_add(a.e01, -b.e13 * c.e23, b.s * c.e12);
    lemma_mul_is_distributive_add(a.e01, -b.e13 * c.e23 + b.s * c.e12, b.e12 * c.s);
    lemma_mul_is_distributive_add(a.e01, -b.e13 * c.e23 + b.s * c.e12 + b.e12 * c.s, b.e23 * c.e13);
    lemma_mul_is_associative(a.e02, b.e12, c.e12);
    lemma_mul_is_associative(a.e02, b.e13, c.e13);
    lemma_mul_is_associative(a.e02, b.e23, c.e23);
    lemma_mul_is_associative(a.e02, b.s, c.s);
    lemma_mul_unary_negation(b.e12, c.e12);
    lemma_mul_unary_negation(a.e02, b.e12 * c.e12);
    lemma_mul_is_distributive_sub(a.e02, -b.e12 * c.e12, b.e13 * c.e13);
    lemma_mul_is_distributive_sub(a.e02, -b.e12 * c.e12 - b.e13 * c.e13, b.e23 * c.e23);
    lemma_mul_is_distributive_add(a.e02, -b.e12 * c.e12 - b.e13 * c.e13 - b.e23 * c.e23, b.s * c.s);
    lemma_mul_is_associative(a.e0123, b.e23, c.e12);
    lemma_mul_is_associative(a.e0123, b.s, c.e13);
    lemma_mul_is_associative(a.e0123, b.e12, c.e23);
    lemma_mul_is_associative(a.e0123, b.e13, c.s);
    lemma_mul_unary_negation(b.e23, c.e12);
    lemma_mul_unary_negation(a.e0123, b.e23 * c.e12);
    lemma_mul_is_distributive_add(a.e0123, -b.e23 * c.e12, b.s * c.e13);
    lemma_mul_is_distributive_add(a.e0123, -b.e23 * c.e12 + b.s * c.e13, b.e12 * c.e23);
    lemma_mul_is_distributive_add(a.e0123, -b.e23 * c.e12 + b.s * c.e13 + b.e12 * c.e23, b.e13 * c.s);
    assert(MotorModel::product(ab, c).e02 == a.e13 * b.e23 * c.e01 + a.e12 * b.e0123 * c.e23 + a.e13 * b.e01 * c.e23 + a.e23 * b.e02 * c.e23 + a.e0123 * b.e12 * c.e23 + a.s * b.s * c.e02 + a.s * b.e13 * c.e0123 + a.e12 * b.e23 * c.e0123 + a.e13 * b.s * c.e0123 + a.s * b.e23 * c.e03 + a.e13 * b.e12 * c.e03 + a.e23 * b.s * c.e03 + a.s * b.e01 * c.e12 + a.e12 * b.e02 * c.e12 + a.e13 * b.e03 * c.e12 + a.e01 * b.s * c.e12 + a.s * b.e02 * c.s + a.e13 * b.e0123 * c.s + a.e23 * b.e03 * c.s + a.e01 * b.e12 * c.s + a.e02 * b.s * c.s + a.e0123 * b.e13 * c.s + a.s * b.e0123 * c.e13 + a.e12 * b.e03 * c.e13 + a.e23 * b.e01 * c.e13 + a.e01 * b.e23 * c.e13 + a.e03 * b.e12 * c.e13 + a.e0123 * b.s * c.e13 - a.s * b.e12 * c.e01 - a.e12 * b.s * c.e01 - a.e23 * b.e13 * c.e01 - a.s * b.e03 * c.e23 - a.e01 * b.e13 * c.e23 - a.e02 * b.e23 * c.e23 - a.e03 * b.s * c.e23 - a.e12 * b.e12 * c.e02 - a.e13 * b.e13 * c.e02 - a.e23 * b.e23 * c.e02 - a.e23 * b.e12 * c.e0123 - a.e12 * b.e13 * c.e03 - a.e23 * b.e0123 * c.e12 - a.e02 * b.e12 * c.e12 - a.e03 * b.e13 * c.e12 - a.e0123 * b.e23 * c.e12 - a.e12 * b.e01 * c.s - a.e03 * b.e23 * c.s - a.e13 * b.e02 * c.e13 - a.e02 * b.e13 * c.e13);
    assert(MotorModel::product(a, bc).e02 == a.e12 * b.e23 * c.e0123 + a.e12 * b.e02 * c.e12 + a.e12 * b.e03 * c.e13 + a.e12 * b.e0123 * c.e23 + a.e03 * b.e12 * c.e13 + a.s * b.s * c.e02 + a.s * b.e13 * c.e0123 + a.s * b.e23 * c.e03 + a.s * b.e01 * c.e12 + a.s * b.e02 * c.s + a.s * b.e0123 * c.e13 + a.e13 * b.s * c.e0123 + a.e13 * b.e12 * c.e03 + a.e13 * b.e23 * c.e01 + a.e13 * b.e01 * c.e23 + a.e13 * b.e03 * c.e12 + a.e13 * b.e0123 * c.s + a.e23 * b.s * c.e03 + a.e23 * b.e01 * c.e13 + a.e23 * b.e02 * c.e23 + a.e23 * b.e03 * c.s + a.e01 * b.s * c.e12 + a.e01 * b.e12 * c.s + a.e01 * b.e23 * c.e13 + a.e02 * b.s * c.s + a.e0123 * b.s * c.e13 + a.e0123 * b.e12 * c.e23 + a.e0123 * b.e13 * c.s - a.e12 * b.s * c.e01 - a.e12 * b.e12 * c.e02 - a.e12 * b.e13 * c.e03 - a.e12 * b.e01 * c.s - a.e03 * b.s * c.e23 - a.e03 * b.e13 * c.e12 - a.e03 * b.e23 * c.s - a.s * b.e12 * c.e01 - a.s * b.e03 * c.e23 - a.e13 * b.e13 * c.e02 - a.e13 * b.e02 * c.e13 - a.e23 * b.e12 * c.e0123 - a.e23 * b.e13 * c.e01 - a.e23 * b.e23 * c.e02 - a.e23 * b.e0123 * c.e12 - a.e01 * b.e13 * c.e23 - a.e02 * b.e12 * c.e12 - a.e02 * b.e13 * c.e13 - a.e02 * b.e23 * c.e23 - a.e0123 * b.e23 * c.e12);
}

/// One coefficient of the associativity law: both nestings expand to
/// the same signed sum of triple products.
proof fn lemma_assoc_e03(a: MotorModel, b: MotorModel, c: MotorModel)
    ensures
        MotorModel::product(MotorModel::product(a, b), c).e03 == MotorModel::product(
            a,
            MotorModel::product(b, c),
        ).e03,
{
    let ab = MotorModel::product(a, b);
    let bc = MotorModel::product(b, c);
    lemma_mul_unary_negation(a.e13, b.e23);
    lemma_mul_unary_negation(a.e13 * b.e23, c.e0123);
    lemma_mul_is_distributive_add_other_way(c.e0123, -a.e13 * b.e23, a.s * b.e12);
    lemma_mul_is_distributive_add_other_way(c.e0123, -a.e13 * b.e23 + a.s * b.e12, a.e12 * b.s);
    lemma_mul_is_distributive_add_other_way(c.e0123, -a.e13 * b.e23 + a.s * b.e12 + a.e12 * b.s, a.e23 * b.e13);
    lemma_mul_unary_negation(ab.e12, c.e0123);
    lemma_mul_unary_negation(a.e23, b.e12);
    lemma_mul_unary_negation(a.e23 * b.e12, c.e01);
    lemma_mul_is_distributive_add_other_way(c.e01, -a.e23 * b.e12, a.s * b.e13);
    lemma_mul_is_distributive_add_other_way(c.e01, -a.e23 * b.e12 + a.s * b.e13, a.e12 * b.e23);
    lemma_mul_is_distributive_add_other_way(c.e01, -a.e23 * b.e12 + a.s * b.e13 + a.e12 * b.e23, a.e13 * b.s);
    lemma_mul_unary_negation(a.e12, b.e13);
    lemma_mul_unary_negation(a.e12 * b.e13, c.e02);
    lemma_mul_is_distributive_add_other_way(c.e02, -a.e12 * b.e13, a.s * b.e23);
    lemma_mul_is_distributive_add_other_way(c.e02, -a.e12 * b.e13 + a.s * b.e23, a.e13 * b.e12);
    lemma_mul_is_distributive_add_other_way(c.e02, -a.e12 * b.e13 + a.s * b.e23 + a.e13 * b.e12, a.e23 * b.s);
    lemma_mul_unary_negation(a.e13, b.e02);
    lemma_mul_unary_negation(a.e13 * b.e02, c.e12);
    lemma_mul_is_distributive_sub_other_way(c.e12, -a.e13 * b.e02, a.e02 * b.e13);
    lemma_mul_is_distributive_add_other_way(c.e12, -a.e13 * b.e02 - a.e02 * b.e13, a.s * b.e0123);
    lemma_mul_is_distributive_add_other_way(c.e12, -a.e13 * b.e02 - a.e02 * b.e13 + a.s * b.e0123, a.e12 * b.e03);
    lemma_mul_is_distributive_add_other_way(c.e12, -a.e13 * b.e02 - a.e02 * b.e13 + a.s * b.e0123 + a.e12 * b.e03, a.e23 * b.e01);
    lemma_mul_is_distributive_add_other_way(c.e12, -a.e13 * b.e02 - a.e02 * b.e13 + a.s * b.e0123 + a.e12 * b.e03 + a.e23 * b.e01, a.e01 * b.e23);
    lemma_mul_is_distributive_add_other_way(c.e12, -a.e13 * b.e02 - a.e02 * b.e13 + a.s * b.e0123 + a.e12 * b.e03 + a.e23 * b.e01 + a.e01 * b.e23, a.e03 * b.e12);
    lemma_mul_is_distributive_add_other_way(c.e12, -a.e13 * b.e02 - a.e02 * b.e13 + a.s * b.e0123 + a.e12 * b.e03 + a.e23 * b.e01 + a.e01 * b.e23 + a.e03 * b.e12, a.e0123 * b.s);
    lemma_mul_unary_negation(a.e12, b.e12);
    lemma_mul_unary_negation(a.e12 * b.e12, c.e03);
    lemma_mul_is_distributive_sub_other_way(c.e03, -a.e12 * b.e12, a.e13 * b.e13);
    lemma_mul_is_distributive_sub_other_way(c.e03, -a.e12 * b.e12 - a.e13 * b.e13, a.e23 * b.e23);
    lemma_mul_is_distributive_add_other_way(c.e03, -a.e12 * b.e12 - a.e13 * b.e13 - a.e23 * b.e23, a.s * b.s);
    lemma_mul_unary_negation(a.e23, b.e0123);
    lemma_mul_unary_negation(a.e23 * b.e0123, c.e13);
    lemma_mul_is_distributive_sub_other_way(c.e13, -a.e23 * b.e0123, a.e02 * b.e12);
    lemma_mul_is_distributive_sub_other_way(c.e13, -a.e23 * b.e0123 - a.e02 * b.e12, a.e03 * b.e13);
    lemma_mul_is_distributive_sub_other_way(c.e13, -a.e23 * b.e0123 - a.e02 * b.e12 - a.e03 * b.e13, a.e0123 * b.e23);
    lemma_mul_is_distributive_add_other_way(c.e13, -a.e23 * b.e0123 - a.e02 * b.e12 - a.e03 * b.e13 - a.e0123 * b.e23, a.s * b.e01);
    lemma_mul_is_distributive_add_other_way(c.e13, -a.e23 * b.e0123 - a.e02 * b.e12 - a.e03 * b.e13 - a.e0123 * b.e23 + a.s * b.e01, a.e12 * b.e02);
    lemma_mul_is_distributive_add_other_way(c.e13, -a.e23 * b.e0123 - a.e02 * b.e12 - a.e03 * b.e13 - a.e0123 * b.e23 + a.s * b.e01 + a.e12 * b.e02, a.e13 * b.e03);
    lemma_mul_is_distributive_add_other_way(c.e13, -a.e23 * b.e0123 - a.e02 * b.e12 - a.e03 * b.e13 - a.e0123 * b.e23 + a.s * b.e01 + a.e12 * b.e02 + a.e13 * b.e03, a.e01 * b.s);
    lemma_mul_unary_negation(a.e12, b.e01);
    lemma_mul_unary_negation(a.e12 * b.e01, c.e23);
    lemma_mul_is_distributive_sub_other_way(c.e23, -a.e12 * b.e01, a.e03 * b.e23);
    lemma_mul_is_distributive_add_other_way(c.e23, -a.e12 * b.e01 - a.e03 * b.e23, a.s * b.e02);
    lemma_mul_is_distributive_add_other_way(c.e23, -a.e12 * b.e01 - a.e03 * b.e23 + a.s * b.e02, a.e13 * b.e0123);
    lemma_mul_is_distributive_add_other_way(c.e23, -a.e12 * b.e01 - a.e03 * b.e23 + a.s * b.e02 + a.e13 * b.e0123, a.e23 * b.e03);
    lemma_mul_is_distributive_add_other_way(c.e23, -a.e12 * b.e01 - a.e03 * b.e23 + a.s * b.e02 + a.e13 * b.e0123 + a.e23 * b.e03, a.e01 * b.e12);
    lemma_mul_is_distributive_add_other_way(c.e23, -a.e12 * b.e01 - a.e03 * b.e23 + a.s * b.e02 + a.e13 * b.e0123 + a.e23 * b.e03 + a.e01 * b.e12, a.e02 * b.s);
    lemma_mul_is_distributive_add_other_way(c.e23, -a.e12 * b.e01 - a.e03 * b.e23 + a.s * b.e02 + a.e13 * b.e0123 + a.e23 * b.e03 + a.e01 * b.e12 + a.e02 * b.s, a.e0123 * b.e13);
    lemma_mul_unary_negation(a.e12, b.e0123);
    lemma_mul_unary_negation(a.e12 * b.e0123, c.s);
    lemma_mul_is_distributive_sub_other_way(c.s, -a.e12 * b.e0123, a.e13 * b.e01);
    lemma_mul_is_distributive_sub_other_way(c.s, -a.e12 * b.e0123 - a.e13 * b.e01, a.e23 * b.e02);
    lemma_mul_is_distributive_sub_other_way(c.s, -a.e12 * b.e0123 - a.e13 * b.e01 - a.e23 * b.e02, a.e0123 * b.e12);
    lemma_mul_is_distributive_add_other_way(c.s, -a.e12 * b.e0123 - a.e13 * b.e01 - a.e23 * b.e02 - a.e0123 * b.e12, a.s * b.e03);
    lemma_mul_is_distributive_add_other_way(c.s, -a.e12 * b.e0123 - a.e13 * b.e01 - a.e23 * b.e02 - a.e0123 * b.e12 + a.s * b.e03, a.e01 * b.e13);
    lemma_mul_is_distributive_add_other_way(c.s, -a.e12 * b.e0123 - a.e13 * b.e01 - a.e23 * b.e02 - a.e0123 * b.e12 + a.s * b.e03 + a.e01 * b.e13, a.e02 * b.e23);
    lemma_mul_is_distributive_add_other_way(c.s, -a.e12 * b.e0123 - a.e13 * b.e01 - a.e23 * b.e02 - a.e0123 * b.e12 + a.s * b.e03 + a.e01 * b.e13 + a.e02 * b.e23, a.e03 * b.s);
    lemma_mul_is_associative(a.e12, b.e13, c.e02);
    lemma_mul_is_associative(a.e12, b.e02, c.e13);
    lemma_mul_is_associative(a.e12, b.s, c.e0123);
    lemma_mul_is_associative(a.e12, b.e12, c.e03);
    lemma_mul_is_associative(a.e12, b.e23, c.e01);
    lemma_mul_is_associative(a.e12, b.e01, c.e23);
    lemma_mul_is_associative(a.e12, b.e03, c.e12);
    lemma_mul_is_associative(a.e12, b.e0123, c.s);
    lemma_mul_unary_negation(b.e13, c.e02);
    lemma_mul_unary_negation(a.e12, b.e13 * c.e02);
    lemma_mul_is_distributive_sub(a.e12, -b.e13 * c.e02, b.e02 * c.e13);
    lemma_mul_is_distributive_add(a.e12, -b.e13 * c.e02 - b.e02 * c.e13, b.s * c.e0123);
    lemma_mul_is_distributive_add(a.e12, -b.e13 * c.e02 - b.e02 * c.e13 + b.s * c.e0123, b.e12 * c.e03);
    lemma_mul_is_distributive_add(a.e12, -b.e13 * c.e02 - b.e02 * c.e13 + b.s * c.e0123 + b.e12 * c.e03, b.e23 * c.e01);
    lemma_mul_is_distributive_add(a.e12, -b.e13 * c.e02 - b.e02 * c.e13 + b.s * c.e0123 + b.e12 * c.e03 + b.e23 * c.e01, b.e01 * c.e23);
    lemma_mul_is_distributive_add(a.e12, -b.e13 * c.e02 - b.e02 * c.e13 + b.s * c.e0123 + b.e12 * c.e03 + b.e23 * c.e01 + b.e01 * c.e23, b.e03 * c.e12);
    lemma_mul_is_distributive_add(a.e12, -b.e13 * c.e02 - b.e02 * c.e13 + b.s * c.e0123 + b.e12 * c.e03 + b.e23 * c.e01 + b.e01 * c.e23 + b.e03 * c.e12, b.e0123 * c.s);
    lemma_mul_unary_negation(a.e12, bc.e0123);
    lemma_mul_is_associative(a.e13, b.e23, c.e0123);
    lemma_mul_is_associative(a.e13, b.e02, c.e12);
    lemma_mul_is_associative(a.e13, b.e03, c.e13);
    lemma_mul_is_associative(a.e13, b.e0123, c.e23);
    lemma_mul_is_associative(a.e13, b.s, c.e01);
    lemma_mul_is_associative(a.e13, b.e12, c.e02);
    lemma_mul_is_associative(a.e13, b.e13, c.e03);
    lemma_mul_is_associative(a.e13, b.e01, c.s);
    lemma_mul_unary_negation(b.e23, c.e0123);
    lemma_mul_unary_negation(a.e13, b.e23 * c.e0123);
    lemma_mul_is_distributive_sub(a.e13, -b.e23 * c.e0123, b.e02 * c.e12);
    lemma_mul_is_distributive_sub(a.e13, -b.e23 * c.e0123 - b.e02 * c.e12, b.e03 * c.e13);
    lemma_mul_is_distributive_sub(a.e13, -b.e23 * c.e0123 - b.e02 * c.e12 - b.e03 * c.e13, b.e0123 * c.e23);
    lemma_mul_is_distributive_add(a.e13, -b.e23 * c.e0123 - b.e02 * c.e12 - b.e03 * c.e13 - b.e0123 * c.e23, b.s * c.e01);
    lemma_mul_is_distributive_add(a.e13, -b.e23 * c.e0123 - b.e02 * c.e12 - b.e03 * c.e13 - b.e0123 * c.e23 + b.s * c.e01, b.e12 * c.e02);
    lemma_mul_is_distributive_add(a.e13, -b.e23 * c.e0123 - b.e02 * c.e12 - b.e03 * c.e13 - b.e0123 * c.e23 + b.s * c.e01 + b.e12 * c.e02, b.e13 * c.e03);
    lemma_mul_is_distributive_add(a.e13, -b.e23 * c.e0123 - b.e02 * c.e12 - b.e03 * c.e13 - b.e0123 * c.e23 + b.s * c.e01 + b.e12 * c.e02 + b.e13 * c.e03, b.e01 * c.s);
    lemma_mul_is_associative(a.e23, b.e12, c.e01);
    lemma_mul_is_associative(a.e23, b.e03, c.e23);
    lemma_mul_is_associative(a.e23, b.s, c.e02);
    lemma_mul_is_associative(a.e23, b.e13, c.e0123);
    lemma_mul_is_associative(a.e23, b.e23, c.e03);
    lemma_mul_is_associative(a.e23, b.e01, c.e12);
    lemma_mul_is_associative(a.e23, b.e02, c.s);
    lemma_mul_is_associative(a.e23, b.e0123, c.e13);
    lemma_mul_unary_negation(b.e12, c.e01);
    lemma_mul_unary_negation(a.e23, b.e12 * c.e01);
    lemma_mul_is_distributive_sub(a.e23, -b.e12 * c.e01, b.e03 * c.e23);
    lemma_mul_is_distributive_add(a.e23, -b.e12 * c.e01 - b.e03 * c.e23, b.s * c.e02);
    lemma_mul_is_distributive_add(a.e23, -b.e12 * c.e01 - b.e03 * c.e23 + b.s * c.e02, b.e13 * c.e0123);
    lemma_mul_is_distributive_add(a.e23, -b.e12 * c.e01 - b.e03 * c.e23 + b.s * c.e02 + b.e13 * c.e0123, b.e23 * c.e03);
    lemma_mul_is_distributive_add(a.e23, -b.e12 * c.e01 - b.e03 * c.e23 + b.s * c.e02 + b.e13 * c.e0123 + b.e23 * c.e03, b.e01 * c.e12);
    lemma_mul_is_distributive_add(a.e23, -b.e12 * c.e01 - b.e03 * c.e23 + b.s * c.e02 + b.e13 * c.e0123 + b.e23 * c.e03 + b.e01 * c.e12, b.e02 * c.s);
    lemma_mul_is_distributive_add(a.e23, -b.e12 * c.e01 - b.e03 * c.e23 + b.s * c.e02 + b.e13 * c.e0123 + b.e23 * c.e03 + b.e01 * c.e12 + b.e02 * c.s, b.e0123 * c.e13);
    lemma_mul_is_associative(a.e0123, b.e13, c.e23);
    lemma_mul_is_associative(a.e0123, b.s, c.e12);
    lemma_mul_is_associative(a.e0123, b.e12, c.s);
    lemma_mul_is_associative(a.e0123, b.e23, c.e13);
    lemma_mul_unary_negation(b.e13, c.e23);
    lemma_mul_unary_negation(a.e0123, b.e13 * c.e23);
    lemma_mul_is_distributive_add(a.e0123, -b.e13 * c.e23, b.s * c.e12);
    lemma_mul_is_distributive_add(a.e0123, -b.e13 * c.e23 + b.s * c.e12, b.e12 * c.s);
    lemma_mul_is_distributive_add(a.e0123, -b.e13 * c.e23 + b.s * c.e12 + b.e12 * c.s, b.e23 * c.e13);
    lemma_mul_is_associative(a.s, b.e12, c.e0123);
    lemma_mul_is_associative(a.s, b.e13, c.e01);
    lemma_mul_is_associative(a.s, b.e23, c.e02);
    lemma_mul_is_associative(a.s, b.e0123, c.e12);
    lemma_mul_is_associative(a.s, b.s, c.e03);
    lemma_mul_is_associative(a.s, b.e01, c.e13);
    lemma_mul_is_associative(a.s, b.e02, c.e23);
    lemma_mul_is_associative(a.s, b.e03, c.s);
    lemma_mul_unary_negation(b.e12, c.e0123);
    lemma_mul_unary_negation(a.s, b.e12 * c.e0123);
    lemma_mul_is_distributive_sub(a.s, -b.e12 * c.e0123, b.e13 * c.e01);
    lemma_mul_is_distributive_sub(a.s, -b.e12 * c.e0123 - b.e13 * c.e01, b.e23 * c.e02);
    lemma_mul_is_distributive_sub(a.s, -b.e12 * c.e0123 - b.e13 * c.e01 - b.e23 * c.e02, b.e0123 * c.e12);
    lemma_mul_is_distributive_add(a.s, -b.e12 * c.e0123 - b.e13 * c.e01 - b.e23 * c.e02 - b.e0123 * c.e12, b.s * c.e03);
    lemma_mul_is_distributive_add(a.s, -b.e12 * c.e0123 - b.e13 * c.e01 - b.e23 * c.e02 - b.e0123 * c.e12 + b.s * c.e03, b.e01 * c.e13);
    lemma_mul_is_distributive_add(a.s, -b.e12 * c.e0123 - b.e13 * c.e01 - b.e23 * c.e02 - b.e0123 * c.e12 + b.s * c.e03 + b.e01 * c.e13, b.e02 * c.e23);
    lemma_mul_is_distributive_add(a.s, -b.e12 * c.e0123 - b.e13 * c.e01 - b.e23 * c.e02 - b.e0123 * c.e12 + b.s * c.e03 + b.e01 * c.e13 + b.e02 * c.e23, b.e03 * c.s);
    lemma_mul_is_associative(a.e01, b.e23, c.e12);
    lemma_mul_is_associative(a.e01, b.s, c.e13);
    lemma_mul_is_associative(a.e01, b.e12, c.e23);
    lemma_mul_is_associative(a.e01, b.e13, c.s);
    lemma_mul_unary_negation(b.e23, c.e12);
    lemma_mul_unary_negation(a.e01, b.e23 * c.e12);
    lemma_mul_is_distributive_add(a.e01, -b.e23 * c.e12, b.s * c.e13);
    lemma_mul_is_distributive_add(a.e01, -b.e23 * c.e12 + b.s * c.e13, b.e12 * c.e23);
    lemma_mul_is_distributive_add(a.e01, -b.e23 * c.e12 + b.s * c.e13 + b.e12 * c.e23, b.e13 * c.s);
    lemma_mul_is_associative(a.e02, b.e12, c.e13);
    lemma_mul_is_associative(a.e02, b.s, c.e23);
    lemma_mul_is_associative(a.e02, b.e13, c.e12);
    lemma_mul_is_associative(a.e02, b.e23, c.s);
    lemma_mul_unary_negation(b.e12, c.e13);
    lemma_mul_unary_negation(a.e02, b.e12 * c.e13);
    lemma_mul_is_distributive_add(a.e02, -b.e12 * c.e13, b.s * c.e23);
    lemma_mul_is_distributive_add(a.e02, -b.e12 * c.e13 + b.s * c.e23, b.e13 * c.e12);
    lemma_mul_is_distributive_add(a.e02, -b.e12 * c.e13 + b.s * c.e23 + b.e13 * c.e12, b.e23 * c.s);
    lemma_mul_is_associative(a.e03, b.e12, c.e12);
    lemma_mul_is_associative(a.e03, b.e13, c.e13);
    lemma_mul_is_associative(a.e03, b.e23, c.e23);
    lemma_mul_is_associative(a.e03, b.s, c.s);
    lemma_mul_unary_negation(b.e12, c.e12);
    lemma_mul_unary_negation(a.e03, b.e12 * c.e12);
    lemma_mul_is_distributive_sub(a.e03, -b.e12 * c.e12, b.e13 * c.e13);
    lemma_mul_is_distributive_sub(a.e03, -b.e12 * c.e12 - b.e13 * c.e13, b.e23 * c.e23);
    lemma_mul_is_distributive_add(a.e03, -b.e12 * c.e12 - b.e13 * c.e13 - b.e23 * c.e23, b.s * c.s);
    assert(MotorModel::product(ab, c).e03 == a.e13 * b.e23 * c.e0123 + a.e23 * b.e12 * c.e01 + a.e12 * b.e13 * c.e02 + a.e13 * b.e02 * c.e12 + a.e02 * b.e13 * c.e12 + a.s * b.s * c.e03 + a.s * b.e01 * c.e13 + a.e12 * b.e02 * c.e13 + a.e13 * b.e03 * c.e13 + a.e01 * b.s * c.e13 + a.s * b.e02 * c.e23 + a.e13 * b.e0123 * c.e23 + a.e23 * b.e03 * c.e23 + a.e01 * b.e12 * c.e23 + a.e02 * b.s * c.e23 + a.e0123 * b.e13 * c.e23 + a.s * b.e03 * c.s + a.e01 * b.e13 * c.s + a.e02 * b.e23 * c.s + a.e03 * b.s * c.s - a.s * b.e12 * c.e0123 - a.e12 * b.s * c.e0123 - a.e23 * b.e13 * c.e0123 - a.s * b.e13 * c.e01 - a.e12 * b.e23 * c.e01 - a.e13 * b.s * c.e01 - a.s * b.e23 * c.e02 - a.e13 * b.e12 * c.e02 - a.e23 * b.s * c.e02 - a.s * b.e0123 * c.e12 - a.e12 * b.e03 * c.e12 - a.e23 * b.e01 * c.e12 - a.e01 * b.e23 * c.e12 - a.e03 * b.e12 * c.e12 - a.e0123 * b.s * c.e12 - a.e12 * b.e12 * c.e03 - a.e13 * b.e13 * c.e03 - a.e23 * b.e23 * c.e03 - a.e23 * b.e0123 * c.e13 - a.e02 * b.e12 * c.e13 - a.e03 * b.e13 * c.e13 - a.e0123 * b.e23 * c.e13 - a.e12 * b.e01 * c.e23 - a.e03 * b.e23 * c.e23 - a.e12 * b.e0123 * c.s - a.e13 * b.e01 * c.s - a.e23 * b.e02 * c.s - a.e0123 * b.e12 * c.s);
    assert(MotorModel::product(a, bc).e03 == a.e12 * b.e13 * c.e02 + a.e12 * b.e02 * c.e13 + a.e13 * b.e23 * c.e0123 + a.e13 * b.e02 * c.e12 + a.e13 * b.e03 * c.e13 + a.e13 * b.e0123 * c.e23 + a.e23 * b.e12 * c.e01 + a.e23 * b.e03 * c.e23 + a.e0123 * b.e13 * c.e23 + a.s * b.s * c.e03 + a.s * b.e01 * c.e13 + a.s * b.e02 * c.e23 + a.s * b.e03 * c.s + a.e01 * b.s * c.e13 + a.e01 * b.e12 * c.e23 + a.e01 * b.e13 * c.s + a.e02 * b.s * c.e23 + a.e02 * b.e13 * c.e12 + a.e02 * b.e23 * c.s + a.e03 * b.s * c.s - a.e12 * b.s * c.e0123 - a.e12 * b.e12 * c.e03 - a.e12 * b.e23 * c.e01 - a.e12 * b.e01 * c.e23 - a.e12 * b.e03 * c.e12 - a.e12 * b.e0123 * c.s - a.e13 * b.s * c.e01 - a.e13 * b.e12 * c.e02 - a.e13 * b.e13 * c.e03 - a.e13 * b.e01 * c.s - a.e23 * b.s * c.e02 - a.e23 * b.e13 * c.e0123 - a.e23 * b.e23 * c.e03 - a.e23 * b.e01 * c.e12 - a.e23 * b.e02 * c.s - a.e23 * b.e0123 * c.e13 - a.e0123 * b.s * c.e12 - a.e0123 * b.e12 * c.s - a.e0123 * b.e23 * c.e13 - a.s * b.e12 * c.e0123 - a.s * b.e13 * c.e01 - a.s * b.e23 * c.e02 - a.s * b.e0123 * c.e12 - a.e01 * b.e23 * c.e12 - a.e02 * b.e12 * c.e13 - a.e03 * b.e12 * c.e12 - a.e03 * b.e13 * c.e13 - a.e03 * b.e23 * c.e23);
}

/// One coefficient of the associativity law: both nestings expand to
/// the same signed sum of triple products.
proof fn lemma_assoc_e0123(a: MotorModel, b: MotorModel, c: MotorModel)
    ensures
        MotorModel::product(MotorModel::product(a, b), c).e0123 == MotorModel::product(
            a,
            MotorModel::product(b, c),
        ).e0123,
{
    let ab = MotorModel::product(a, b);
    let bc = MotorModel::product(b, c);
    lemma_mul_unary_negation(a.e23, b.e12);
    lemma_mul_unary_negation(a.e23 * b.e12, c.e02);
    lemma_mul_is_distributive_add_other_way(c.e02, -a.e23 * b.e12, a.s * b.e13);
    lemma_mul_is_distributive_add_other_way(c.e02, -a.e23 * b.e12 + a.s * b.e13, a.e12 * b.e23);
    lemma_mul_is_distributive_add_other_way(c.e02, -a.e23 * b.e12 + a.s * b.e13 + a.e12 * b.e23, a.e13 * b.s);
    lemma_mul_unary_negation(ab.e13, c.e02);
    lemma_mul_unary_negation(a.e12, b.e01);
    lemma_mul_unary_negation(a.e12 * b.e01, c.e13);
    lemma_mul_is_distributive_sub_other_way(c.e13, -a.e12 * b.e01, a.e03 * b.e23);
    lemma_mul_is_distributive_add_other_way(c.e13, -a.e12 * b.e01 - a.e03 * b.e23, a.s * b.e02);
    lemma_mul_is_distributive_add_other_way(c.e13, -a.e12 * b.e01 - a.e03 * b.e23 + a.s * b.e02, a.e13 * b.e0123);
    lemma_mul_is_distributive_add_other_way(c.e13, -a.e12 * b.e01 - a.e03 * b.e23 + a.s * b.e02 + a.e13 * b.e0123, a.e23 * b.e03);
    lemma_mul_is_distributive_add_other_way(c.e13, -a.e12 * b.e01 - a.e03 * b.e23 + a.s * b.e02 + a.e13 * b.e0123 + a.e23 * b.e03, a.e01 * b.e12);
    lemma_mul_is_distributive_add_other_way(c.e13, -a.e12 * b.e01 - a.e03 * b.e23 + a.s * b.e02 + a.e13 * b.e0123 + a.e23 * b.e03 + a.e01 * b.e12, a.e02 * b.s);
    lemma_mul_is_distributive_add_other_way(c.e13, -a.e12 * b.e01 - a.e03 * b.e23 + a.s * b.e02 + a.e13 * b.e0123 + a.e23 * b.e03 + a.e01 * b.e12 + a.e02 * b.s, a.e0123 * b.e13);
    lemma_mul_unary_negation(a.e12, b.e12);
    lemma_mul_unary_negation(a.e12 * b.e12, c.e0123);
    lemma_mul_is_distributive_sub_other_way(c.e0123, -a.e12 * b.e12, a.e13 * b.e13);
    lemma_mul_is_distributive_sub_other_way(c.e0123, -a.e12 * b.e12 - a.e13 * b.e13, a.e23 * b.e23);
    lemma_mul_is_distributive_add_other_way(c.e0123, -a.e12 * b.e12 - a.e13 * b.e13 - a.e23 * b.e23, a.s * b.s);
    lemma_mul_unary_negation(a.e13, b.e23);
    lemma_mul_unary_negation(a.e13 * b.e23, c.e03);
    lemma_mul_is_distributive_add_other_way(c.e03, -a.e13 * b.e23, a.s * b.e12);
    lemma_mul_is_distributive_add_other_way(c.e03, -a.e13 * b.e23 + a.s * b.e12, a.e12 * b.s);
    lemma_mul_is_distributive_add_other_way(c.e03, -a.e13 * b.e23 + a.s * b.e12 + a.e12 * b.s, a.e23 * b.e13);
    lemma_mul_unary_negation(a.e12, b.e13);
    lemma_mul_unary_negation(a.e12 * b.e13, c.e01);
    lemma_mul_is_distributive_add_other_way(c.e01, -a.e12 * b.e13, a.s * b.e23);
    lemma_mul_is_distributive_add_other_way(c.e01, -a.e12 * b.e13 + a.s * b.e23, a.e13 * b.e12);
    lemma_mul_is_distributive_add_other_way(c.e01, -a.e12 * b.e13 + a.s * b.e23 + a.e13 * b.e12, a.e23 * b.s);
    lemma_mul_unary_negation(a.e23, b.e0123);
    lemma_mul_unary_negation(a.e23 * b.e0123, c.e23);
    lemma_mul_is_distributive_sub_other_way(c.e23, -a.e23 * b.e0123, a.e02 * b.e12);
    lemma_mul_is_distributive_sub_other_way(c.e23, -a.e23 * b.e0123 - a.e02 * b.e12, a.e03 * b.e13);
    lemma_mul_is_distributive_sub_other_way(c.e23, -a.e23 * b.e0123 - a.e02 * b.e12 - a.e03 * b.e13, a.e0123 * b.e23);
    lemma_mul_is_distributive_add_other_way(c.e23, -a.e23 * b.e0123 - a.e02 * b.e12 - a.e03 * b.e13 - a.e0123 * b.e23, a.s * b.e01);
    lemma_mul_is_distributive_add_other_way(c.e23, -a.e23 * b.e0123 - a.e02 * b.e12 - a.e03 * b.e13 - a.e0123 * b.e23 + a.s * b.e01, a.e12 * b.e02);
    lemma_mul_is_distributive_add_other_way(c.e23, -a.e23 * b.e0123 - a.e02 * b.e12 - a.e03 * b.e13 - a.e0123 * b.e23 + a.s * b.e01 + a.e12 * b.e02, a.e13 * b.e03);
    lemma_mul_is_distributive_add_other_way(c.e23, -a.e23 * b.e0123 - a.e02 * b.e12 - a.e03 * b.e13 - a.e0123 * b.e23 + a.s * b.e01 + a.e12 * b.e02 + a.e13 * b.e03, a.e01 * b.s);
    lemma_mul_unary_negation(a.e12, b.e0123);
    lemma_mul_unary_negation(a.e12 * b.e0123, c.e12);
    lemma_mul_is_distributive_sub_other_way(c.e12, -a.e12 * b.e0123, a.e13 * b.e01);
    lemma_mul_is_distributive_sub_other_way(c.e12, -a.e12 * b.e0123 - a.e13 * b.e01, a.e23 * b.e02);
    lemma_mul_is_distributive_sub_other_way(c.e12, -a.e12 * b.e0123 - a.e13 * b.e01 - a.e23 * b.e02, a.e0123 * b.e12);
    lemma_mul_is_distributive_add_other_way(c.e12, -a.e12 * b.e0123 - a.e13 * b.e01 - a.e23 * b.e02 - a.e0123 * b.e12, a.s * b.e03);
    lemma_mul_is_distributive_add_other_way(c.e12, -a.e12 * b.e0123 - a.e13 * b.e01 - a.e23 * b.e02 - a.e0123 * b.e12 + a.s * b.e03, a.e01 * b.e13);
    lemma_mul_is_distributive_add_other_way(c.e12, -a.e12 * b.e0123 - a.e13 * b.e01 - a.e23 * b.e02 - a.e0123 * b.e12 + a.s * b.e03 + a.e01 * b.e13, a.e02 * b.e23);
    lemma_mul_is_distributive_add_other_way(c.e12, -a.e12 * b.e0123 - a.e13 * b.e01 - a.e23 * b.e02 - a.e0123 * b.e12 + a.s * b.e03 + a.e01 * b.e13 + a.e02 * b.e23, a.e03 * b.s);
    lemma_mul_unary_negation(a.e13, b.e02);
    lemma_mul_unary_negation(a.e13 * b.e02, c.s);
    lemma_mul_is_distributive_sub_other_way(c.s, -a.e13 * b.e02, a.e02 * b.e13);
    lemma_mul_is_distributive_add_other_way(c.s, -a.e13 * b.e02 - a.e02 * b.e13, a.s * b.e0123);
    lemma_mul_is_distributive_add_other_way(c.s, -a.e13 * b.e02 - a.e02 * b.e13 + a.s * b.e0123, a.e12 * b.e03);
    lemma_mul_is_distributive_add_other_way(c.s, -a.e13 * b.e02 - a.e02 * b.e13 + a.s * b.e0123 + a.e12 * b.e03, a.e23 * b.e01);
    lemma_mul_is_distributive_add_other_way(c.s, -a.e13 * b.e02 - a.e02 * b.e13 + a.s * b.e0123 + a.e12 * b.e03 + a.e23 * b.e01, a.e01 * b.e23);
    lemma_mul_is_distributive_add_other_way(c.s, -a.e13 * b.e02 - a.e02 * b.e13 + a.s * b.e0123 + a.e12 * b.e03 + a.e23 * b.e01 + a.e01 * b.e23, a.e03 * b.e12);
    lemma_mul_is_distributive_add_other_way(c.s, -a.e13 * b.e02 - a.e02 * b.e13 + a.s * b.e0123 + a.e12 * b.e03 + a.e23 * b.e01 + a.e01 * b.e23 + a.e03 * b.e12, a.e0123 * b.s);
    lemma_mul_is_associative(a.e13, b.e12, c.e01);
    lemma_mul_is_associative(a.e13, b.e03, c.e23);
    lemma_mul_is_associative(a.e13, b.s, c.e02);
    lemma_mul_is_associative(a.e13, b.e13, c.e0123);
    lemma_mul_is_associative(a.e13, b.e23, c.e03);
    lemma_mul_is_associative(a.e13, b.e01, c.e12);
    lemma_mul_is_associative(a.e13, b.e02, c.s);
    lemma_mul_is_associative(a.e13, b.e0123, c.e13);
    lemma_mul_unary_negation(b.e12, c.e01);
    lemma_mul_unary_negation(a.e13, b.e12 * c.e01);
    lemma_mul_is_distributive_sub(a.e13, -b.e12 * c.e01, b.e03 * c.e23);
    lemma_mul_is_distributive_add(a.e13, -b.e12 * c.e01 - b.e03 * c.e23, b.s * c.e02);
    lemma_mul_is_distributive_add(a.e13, -b.e12 * c.e01 - b.e03 * c.e23 + b.s * c.e02, b.e13 * c.e0123);
    lemma_mul_is_distributive_add(a.e13, -b.e12 * c.e01 - b.e03 * c.e23 + b.s * c.e02 + b.e13 * c.e0123, b.e23 * c.e03);
    lemma_mul_is_distributive_add(a.e13, -b.e12 * c.e01 - b.e03 * c.e23 + b.s * c.e02 + b.e13 * c.e0123 + b.e23 * c.e03, b.e01 * c.e12);
    lemma_mul_is_distributive_add(a.e13, -b.e12 * c.e01 - b.e03 * c.e23 + b.s * c.e02 + b.e13 * c.e0123 + b.e23 * c.e03 + b.e01 * c.e12, b.e02 * c.s);
    lemma_mul_is_distributive_add(a.e13, -b.e12 * c.e01 - b.e03 * c.e23 + b.s * c.e02 + b.e13 * c.e0123 + b.e23 * c.e03 + b.e01 * c.e12 + b.e02 * c.s, b.e0123 * c.e13);
    lemma_mul_unary_negation(a.e13, bc.e02);
    lemma_mul_is_associative(a.e02, b.e23, c.e12);
    lemma_mul_is_associative(a.e02, b.s, c.e13);
    lemma_mul_is_associative(a.e02, b.e12, c.e23);
    lemma_mul_is_associative(a.e02, b.e13, c.s);
    lemma_mul_unary_negation(b.e23, c.e12);
    lemma_mul_unary_negation(a.e02, b.e23 * c.e12);
    lemma_mul_is_distributive_add(a.e02, -b.e23 * c.e12, b.s * c.e13);
    lemma_mul_is_distributive_add(a.e02, -b.e23 * c.e12 + b.s * c.e13, b.e12 * c.e23);
    lemma_mul_is_distributive_add(a.e02, -b.e23 * c.e12 + b.s * c.e13 + b.e12 * c.e23, b.e13 * c.s);
    lemma_mul_is_associative(a.s, b.e13, c.e02);
    lemma_mul_is_associative(a.s, b.e02, c.e13);
    lemma_mul_is_associative(a.s, b.s, c.e0123);
    lemma_mul_is_associative(a.s, b.e12, c.e03);
    lemma_mul_is_associative(a.s, b.e23, c.e01);
    lemma_mul_is_associative(a.s, b.e01, c.e23);
    lemma_mul_is_associative(a.s, b.e03, c.e12);
    lemma_mul_is_associative(a.s, b.e0123, c.s);
    lemma_mul_unary_negation(b.e13, c.e02);
    lemma_mul_unary_negation(a.s, b.e13 * c.e02);
    lemma_mul_is_distributive_sub(a.s, -b.e13 * c.e02, b.e02 * c.e13);
    lemma_mul_is_distributive_add(a.s, -b.e13 * c.e02 - b.e02 * c.e13, b.s * c.e0123);
    lemma_mul_is_distributive_add(a.s, -b.e13 * c.e02 - b.e02 * c.e13 + b.s * c.e0123, b.e12 * c.e03);
    lemma_mul_is_distributive_add(a.s, -b.e13 * c.e02 - b.e02 * c.e13 + b.s * c.e0123 + b.e12 * c.e03, b.e23 * c.e01);
    lemma_mul_is_distributive_add(a.s, -b.e13 * c.e02 - b.e02 * c.e13 + b.s * c.e0123 + b.e12 * c.e03 + b.e23 * c.e01, b.e01 * c.e23);
    lemma_mul_is_distributive_add(a.s, -b.e13 * c.e02 - b.e02 * c.e13 + b.s * c.e0123 + b.e12 * c.e03 + b.e23 * c.e01 + b.e01 * c.e23, b.e03 * c.e12);
    lemma_mul_is_distributive_add(a.s, -b.e13 * c.e02 - b.e02 * c.e13 + b.s * c.e0123 + b.e12 * c.e03 + b.e23 * c.e01 + b.e01 * c.e23 + b.e03 * c.e12, b.e0123 * c.s);
    lemma_mul_is_associative(a.e12, b.e12, c.e0123);
    lemma_mul_is_associative(a.e12, b.e13, c.e01);
    lemma_mul_is_associative(a.e12, b.e23, c.e02);
    lemma_mul_is_associative(a.e12, b.e0123, c.e12);
    lemma_mul_is_associative(a.e12, b.s, c.e03);
    lemma_mul_is_associative(a.e12, b.e01, c.e13);
    lemma_mul_is_associative(a.e12, b.e02, c.e23);
    lemma_mul_is_associative(a.e12, b.e03, c.s);
    lemma_mul_unary_negation(b.e12, c.e0123);
    lemma_mul_unary_negation(a.e12, b.e12 * c.e0123);
    lemma_mul_is_distributive_sub(a.e12, -b.e12 * c.e0123, b.e13 * c.e01);
    lemma_mul_is_distributive_sub(a.e12, -b.e12 * c.e0123 - b.e13 * c.e01, b.e23 * c.e02);
    lemma_mul_is_distributive_sub(a.e12, -b.e12 * c.e0123 - b.e13 * c.e01 - b.e23 * c.e02, b.e0123 * c.e12);
    lemma_mul_is_distributive_add(a.e12, -b.e12 * c.e0123 - b.e13 * c.e01 - b.e23 * c.e02 - b.e0123 * c.e12, b.s * c.e03);
    lemma_mul_is_distributive_add(a.e12, -b.e12 * c.e0123 - b.e13 * c.e01 - b.e23 * c.e02 - b.e0123 * c.e12 + b.s * c.e03, b.e01 * c.e13);
    lemma_mul_is_distributive_add(a.e12, -b.e12 * c.e0123 - b.e13 * c.e01 - b.e23 * c.e02 - b.e0123 * c.e12 + b.s * c.e03 + b.e01 * c.e13, b.e02 * c.e23);
    lemma_mul_is_distributive_add(a.e12, -b.e12 * c.e0123 - b.e13 * c.e01 - b.e23 * c.e02 - b.e0123 * c.e12 + b.s * c.e03 + b.e01 * c.e13 + b.e02 * c.e23, b.e03 * c.s);
    lemma_mul_is_associative(a.e23, b.e23, c.e0123);
    lemma_mul_is_associative(a.e23, b.e02, c.e12);
    lemma_mul_is_associative(a.e23, b.e03, c.e13);
    lemma_mul_is_associative(a.e23, b.e0123, c.e23);
    lemma_mul_is_associative(a.e23, b.s, c.e01);
    lemma_mul_is_associative(a.e23, b.e12, c.e02);
    lemma_mul_is_associative(a.e23, b.e13, c.e03);
    lemma_mul_is_associative(a.e23, b.e01, c.s);
    lemma_mul_unary_negation(b.e23, c.e0123);
    lemma_mul_unary_negation(a.e23, b.e23 * c.e0123);
    lemma_mul_is_distributive_sub(a.e23, -b.e23 * c.e0123, b.e02 * c.e12);
    lemma_mul_is_distributive_sub(a.e23, -b.e23 * c.e0123 - b.e02 * c.e12, b.e03 * c.e13);
    lemma_mul_is_distributive_sub(a.e23, -b.e23 * c.e0123 - b.e02 * c.e12 - b.e03 * c.e13, b.e0123 * c.e23);
    lemma_mul_is_distributive_add(a.e23, -b.e23 * c.e0123 - b.e02 * c.e12 - b.e03 * c.e13 - b.e0123 * c.e23, b.s * c.e01);
    lemma_mul_is_distributive_add(a.e23, -b.e23 * c.e0123 - b.e02 * c.e12 - b.e03 * c.e13 - b.e0123 * c.e23 + b.s * c.e01, b.e12 * c.e02);
    lemma_mul_is_distributive_add(a.e23, -b.e23 * c.e0123 - b.e02 * c.e12 - b.e03 * c.e13 - b.e0123 * c.e23 + b.s * c.e01 + b.e12 * c.e02, b.e13 * c.e03);
    lemma_mul_is_distributive_add(a.e23, -b.e23 * c.e0123 - b.e02 * c.e12 - b.e03 * c.e13 - b.e0123 * c.e23 + b.s * c.e01 + b.e12 * c.e02 + b.e13 * c.e03, b.e01 * c.s);
    lemma_mul_is_associative(a.e01, b.e12, c.e13);
    lemma_mul_is_associative(a.e01, b.s, c.e23);
    lemma_mul_is_associative(a.e01, b.e13, c.e12);
    lemma_mul_is_associative(a.e01, b.e23, c.s);
    lemma_mul_unary_negation(b.e12, c.e13);
    lemma_mul_unary_negation(a.e01, b.e12 * c.e13);
    lemma_mul_is_distributive_add(a.e01, -b.e12 * c.e13, b.s * c.e23);
    lemma_mul_is_distributive_add(a.e01, -b.e12 * c.e13 + b.s * c.e23, b.e13 * c.e12);
    lemma_mul_is_distributive_add(a.e01, -b.e12 * c.e13 + b.s * c.e23 + b.e13 * c.e12, b.e23 * c.s);
    lemma_mul_is_associative(a.e03, b.e13, c.e23);
    lemma_mul_is_associative(a.e03, b.s, c.e12);
    lemma_mul_is_associative(a.e03, b.e12, c.s);
    lemma_mul_is_associative(a.e03, b.e23, c.e13);
    lemma_mul_unary_negation(b.e13, c.e23);
    lemma_mul_unary_negation(a.e03, b.e13 * c.e23);
    lemma_mul_is_distributive_add(a.e03, -b.e13 * c.e23, b.s * c.e12);
    lemma_mul_is_distributive_add(a.e03, -b.e13 * c.e23 + b.s * c.e12, b.e12 * c.s);
    lemma_mul_is_distributive_add(a.e03, -b.e13 * c.e23 + b.s * c.e12 + b.e12 * c.s, b.e23 * c.e13);
    lemma_mul_is_associative(a.e0123, b.e12, c.e12);
    lemma_mul_is_associative(a.e0123, b.e13, c.e13);
    lemma_mul_is_associative(a.e0123, b.e23, c.e23);
    lemma_mul_is_associative(a.e0123, b.s, c.s);
    lemma_mul_unary_negation(b.e12, c.e12);
    lemma_mul_unary_negation(a.e0123, b.e12 * c.e12);
    lemma_mul_is_distributive_sub(a.e0123, -b.e12 * c.e12, b.e13 * c.e13);
    lemma_mul_is_distributive_sub(a.e0123, -b.e12 * c.e12 - b.e13 * c.e13, b.e23 * c.e23);
    lemma_mul_is_distributive_add(a.e0123, -b.e12 * c.e12 - b.e13 * c.e13 - b.e23 * c.e23, b.s * c.s);
    assert(MotorModel::product(ab, c).e0123 == a.e23 * b.e12 * c.e02 + a.e12 * b.e01 * c.e13 + a.e03 * b.e23 * c.e13 + a.s * b.s * c.e0123 + a.s * b.e12 * c.e03 + a.e12 * b.s * c.e03 + a.e23 * b.e13 * c.e03 + a.s * b.e23 * c.e01 + a.e13 * b.e12 * c.e01 + a.e23 * b.s * c.e01 + a.s * b.e01 * c.e23 + a.e12 * b.e02 * c.e23 + a.e13 * b.e03 * c.e23 + a.e01 * b.s * c.e23 + a.s * b.e03 * c.e12 + a.e01 * b.e13 * c.e12 + a.e02 * b.e23 * c.e12 + a.e03 * b.s * c.e12 + a.s * b.e0123 * c.s + a.e12 * b.e03 * c.s + a.e23 * b.e01 * c.s + a.e01 * b.e23 * c.s + a.e03 * b.e12 * c.s + a.e0123 * b.s * c.s - a.s * b.e13 * c.e02 - a.e12 * b.e23 * c.e02 - a.e13 * b.s * c.e02 - a.s * b.e02 * c.e13 - a.e13 * b.e0123 * c.e13 - a.e23 * b.e03 * c.e13 - a.e01 * b.e12 * c.e13 - a.e02 * b.s * c.e13 - a.e0123 * b.e13 * c.e13 - a.e12 * b.e12 * c.e0123 - a.e13 * b.e13 * c.e0123 - a.e23 * b.e23 * c.e0123 - a.e13 * b.e23 * c.e03 - a.e12 * b.e13 * c.e01 - a.e23 * b.e0123 * c.e23 - a.e02 * b.e12 * c.e23 - a.e03 * b.e13 * c.e23 - a.e0123 * b.e23 * c.e23 - a.e12 * b.e0123 * c.e12 - a.e13 * b.e01 * c.e12 - a.e23 * b.e02 * c.e12 - a.e0123 * b.e12 * c.e12 - a.e13 * b.e02 * c.s - a.e02 * b.e13 * c.s);
    assert(MotorModel::product(a, bc).e0123 == a.e13 * b.e12 * c.e01 + a.e13 * b.e03 * c.e23 + a.e02 * b.e23 * c.e12 + a.s * b.s * c.e0123 + a.s * b.e12 * c.e03 + a.s * b.e23 * c.e01 + a.s * b.e01 * c.e23 + a.s * b.e03 * c.e12 + a.s * b.e0123 * c.s + a.e12 * b.s * c.e03 + a.e12 * b.e01 * c.e13 + a.e12 * b.e02 * c.e23 + a.e12 * b.e03 * c.s + a.e23 * b.s * c.e01 + a.e23 * b.e12 * c.e02 + a.e23 * b.e13 * c.e03 + a.e23 * b.e01 * c.s + a.e01 * b.s * c.e23 + a.e01 * b.e13 * c.e12 + a.e01 * b.e23 * c.s + a.e03 * b.s * c.e12 + a.e03 * b.e12 * c.s + a.e03 * b.e23 * c.e13 + a.e0123 * b.s * c.s - a.e13 * b.s * c.e02 - a.e13 * b.e13 * c.e0123 - a.e13 * b.e23 * c.e03 - a.e13 * b.e01 * c.e12 - a.e13 * b.e02 * c.s - a.e13 * b.e0123 * c.e13 - a.e02 * b.s * c.e13 - a.e02 * b.e12 * c.e23 - a.e02 * b.e13 * c.s - a.s * b.e13 * c.e02 - a.s * b.e02 * c.e13 - a.e12 * b.e12 * c.e0123 - a.e12 * b.e13 * c.e01 - a.e12 * b.e23 * c.e02 - a.e12 * b.e0123 * c.e12 - a.e23 * b.e23 * c.e0123 - a.e23 * b.e02 * c.e12 - a.e23 * b.e03 * c.e13 - a.e23 * b.e0123 * c.e23 - a.e01 * b.e12 * c.e13 - a.e03 * b.e13 * c.e23 - a.e0123 * b.e12 * c.e12 - a.e0123 * b.e13 * c.e13 - a.e0123 * b.e23 * c.e23);
}

/// Law: composition of motors is associative.
pub proof fn lemma_compose_assoc(a: MotorModel, b: MotorModel, c: MotorModel)
    ensures
        MotorModel::product(MotorModel::product(a, b), c) == MotorModel::product(
            a,
            MotorModel::product(b, c),
        ),
{
    lemma_assoc_s(a, b, c);
    lemma_assoc_e12(a, b, c);
    lemma_assoc_e13(a, b, c);
    lemma_assoc_e23(a, b, c);
    lemma_assoc_e01(a, b, c);
    lemma_assoc_e02(a, b, c);
    lemma_assoc_e03(a, b, c);
    lemma_assoc_e0123(a, b, c);
}

/// Law: a valid (unit-norm) motor composed with its reverse is the
/// identity, so the reverse inverts it.
pub proof fn lemma_compose_inverse(m: MotorModel)
    requires
        m.is_unit(),
    ensures
        MotorModel::product(m, m.reverse()) == MotorModel::identity(),
{
    assert(-m.e12 * (-m.e12) - m.e13 * (-m.e13) - m.e23 * (-m.e23) + m.s * m.s == 1) by (nonlinear_arith)
        requires
            m.s * m.s + m.e12 * m.e12 + m.e13 * m.e13 + m.e23 * m.e23 == 1,
    ;
    assert(-m.e13 * (-m.e23) + m.s * (-m.e12) + m.e12 * m.s + m.e23 * (-m.e13) == 0) by (nonlinear_arith)
    ;
    assert(-m.e23 * (-m.e12) + m.s * (-m.e13) + m.e12 * (-m.e23) + m.e13 * m.s == 0) by (nonlinear_arith)
    ;
    assert(-m.e12 * (-m.e13) + m.s * (-m.e23) + m.e13 * (-m.e12) + m.e23 * m.s == 0) by (nonlinear_arith)
    ;
    assert(-m.e23 * m.e0123 - m.e02 * (-m.e12) - m.e03 * (-m.e13) - m.e0123 * (-m.e23) + m.s * (-m.e01) + m.e12 * (-m.e02) + m.e13 * (-m.e03) + m.e01 * m.s == 0) by (nonlinear_arith)
    ;
    assert(-m.e12 * (-m.e01) - m.e03 * (-m.e23) + m.s * (-m.e02) + m.e13 * m.e0123 + m.e23 * (-m.e03) + m.e01 * (-m.e12) + m.e02 * m.s + m.e0123 * (-m.e13) == 0) by (nonlinear_arith)
    ;
    assert(-m.e12 * m.e0123 - m.e13 * (-m.e01) - m.e23 * (-m.e02) - m.e0123 * (-m.e12) + m.s * (-m.e03) + m.e01 * (-m.e13) + m.e02 * (-m.e23) + m.e03 * m.s == 0) by (nonlinear_arith)
    ;
    assert(-m.e13 * (-m.e02) - m.e02 * (-m.e13) + m.s * m.e0123 + m.e12 * (-m.e03) + m.e23 * (-m.e01) + m.e01 * (-m.e23) + m.e03 * (-m.e12) + m.e0123 * m.s == 0) by (nonlinear_arith)
        requires
            m.s * m.e0123 - m.e12 * m.e03 + m.e13 * m.e02 - m.e23 * m.e01 == 0,
    ;
}

/// Halves of two even numbers add to half their sum.
proof fn lemma_half_plus_half(x: int, y: int)
    requires
        x % 2 == 0,
        y % 2 == 0,
    ensures
        x / 2 + y / 2 == (x + y) / 2,
{
    lemma_fundamental_div_mod(x, 2);
    lemma_fundamental_div_mod(y, 2);
    lemma_div_multiples_vanish(x / 2 + y / 2, 2);
    assert(x + y == 2 * (x / 2 + y / 2));
}

/// Law: pure translations commute and add; composing the translations by
/// `u` and by `v` is the translation by `u + v`.
pub proof fn lemma_translation_compose(u: Vector3Model, v: Vector3Model)
    requires
        u.is_even(),
        v.is_even(),
    ensures
        MotorModel::product(MotorModel::translation(u), MotorModel::translation(v))
            == MotorModel::translation(u.plus(v)),
        MotorModel::product(MotorModel::translation(u), MotorModel::translation(v))
            == MotorModel::product(MotorModel::translation(v), MotorModel::translation(u)),
{
    lemma_half_plus_half(u.x, v.x);
    lemma_half_plus_half(u.y, v.y);
    lemma_half_plus_half(u.z, v.z);
}

/// Law: turning a vector into a homogeneous point and back yields the
/// original vector.
pub proof fn lemma_vector_round_trip(v: Vector3Model)
    ensures
        PointModel::from_vector(v).to_vector() == v,
{
    let p = PointModel::from_vector(v);
    assert(p.e023 / 1int == p.e023);
    assert(p.e013 / 1int == p.e013);
    assert(p.e012 / 1int == p.e012);
}


} // verus!
