//! Integer-coordinate geometric algebra: vectors, motors (rigid transforms)
//! and homogeneous points, with exact coefficient formulas.

pub mod bound;
pub mod laws;
pub mod motor;
pub mod point;
pub mod vector2;
pub mod vector3;
