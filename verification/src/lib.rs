//! A recursive Monte-Carlo ray tracer over a saturating decimal fixed-point
//! scalar, so that every step of the intersection-and-shading pipeline has an
//! exact, machine-checked contract.

pub mod camera;
pub mod color;
pub mod fixed;
pub mod hittable;
pub mod hittable_list;
pub mod laws;
pub mod material;
pub mod ray;
pub mod render;
pub mod sample;
pub mod sphere;
pub mod vec3;
