//! Core of an offline path tracer: ray/shape intersection, bounding boxes and
//! the bounding-volume hierarchy, affine transforms with inverse-transpose
//! normal mapping, material scattering and the recursive colour integrator.
//!
//! All geometry is computed over a saturating Q47.16 fixed-point scalar
//! ([`fx::Fx`]), so every arithmetic step has an exact integer-valued
//! specification and the contracts below pin results down to the raw unit.
//! Command-line handling, scene file parsing, image assembly and the parallel
//! sample fan-out live outside this crate; they only hand plain values in and
//! read plain values back.

pub mod aabb;
pub mod algebra;
pub mod matrix;
pub mod material;
pub mod primative;
pub mod ray;
pub mod render;
pub mod sampling;
pub mod scene;
pub mod scene2;
pub mod shapes;
pub mod transforms;
pub mod bvh_tree;
pub mod fx;

pub use fx::Fx;
