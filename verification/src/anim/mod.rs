//! Animation: values that move toward a target over time.

pub mod easing;
pub mod interpolate;
pub mod assoc;
pub mod repeat;
