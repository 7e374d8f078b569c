//! An orbit-style camera controller over fixed-point arithmetic.
//!
//! The controller turns one frame's worth of aggregated pointer input
//! (motion delta, wheel delta, button edges) into the next orbit state:
//! a pivot point, a radial distance, and a yaw/pitch pair, with an
//! inertial coasting effect after a rotate gesture ends.  Every scalar
//! is a signed 64-bit fixed-point number carrying six decimal places,
//! so the whole update is exact integer arithmetic and every step of it
//! is specified and proved.

pub mod controller;
pub mod fixed;
pub mod laws;
pub mod preferences;
pub mod trig;
pub mod vector;
