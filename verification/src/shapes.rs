//! Shape primitives and their intersection tests.

pub mod base;
pub mod cylinder;
pub mod sphere;
pub mod sphere2;
