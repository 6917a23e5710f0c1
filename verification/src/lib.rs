//! Flight dynamics of a quadrotor aircraft over fixed-point arithmetic.
//!
//! Scalars carry nine decimal places: the integer `1_000_000_000` stands for
//! the real number `1.0`. Every physics step is an exact function of the
//! vehicle state, which makes the simulation deterministic and lets each
//! step be specified and verified precisely.

pub mod fx;
pub mod vec3;
pub mod quat;
pub mod types;
pub mod util;
pub mod drone;
