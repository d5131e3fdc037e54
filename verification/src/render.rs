//! Renderable scene components and the GPU-facing state machines: camera
//! and sphere upload with change gating, buffer growth, surface recovery
//! and the per-frame command sequence.

pub mod state;

use vstd::prelude::*;

use crate::math::vector3::Vector3;

verus! {

/// Marks the single node whose camera drives rendering. More than one
/// main camera in a scene is a configuration error.
#[derive(Clone, Copy, PartialEq, Eq, Structural, Debug)]
pub struct MainCamera;

/// A camera: vertical field of view, ray distance range, bounce budget
/// and sun direction. Scalars are fixed-point integers.
#[derive(Clone, Copy, PartialEq, Eq, Structural, Debug)]
pub struct Camera {
    pub v_fov: i64,
    pub min_distance: i64,
    pub max_distance: i64,
    pub max_bounces: u32,
    pub sun_direction: Vector3,
}

/// A surface material: its color, fixed-point per channel.
#[derive(Clone, Copy, PartialEq, Eq, Structural, Debug)]
pub struct Material {
    pub color: Vector3,
}

/// A renderable sphere: its radius, fixed-point.
#[derive(Clone, Copy, PartialEq, Eq, Structural, Debug)]
pub struct Sphere {
    pub radius: i64,
}

} // verus!
