//! A real-time sphere-scene renderer core built on projective geometric
//! algebra: rigid transforms are "motors" (eight integer coefficients),
//! scene nodes carry local poses that a change-gated propagator folds into
//! world poses, and a small state machine packs camera and sphere data for
//! a GPU compute dispatch. All scalar quantities are fixed-point integers;
//! the surrounding binary converts them at the device boundary.

pub mod math;
pub mod render;
pub mod scene;
pub mod transform;
pub mod window;
