//! Small geometric helpers.

pub mod cardinal_direction;
pub mod clamp;
