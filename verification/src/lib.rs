//! A small recursive-raytracing shading library.
//!
//! The crate computes, for a scene of analytic bodies (spheres and planes)
//! and point lights, the color a camera ray reports: homogeneous-coordinate
//! linear algebra, ray/body intersection, Phong shading with shadow tests,
//! and depth-bounded reflective color accumulation. All geometry is carried
//! in fixed-point scalars (see [`scalar`]), so every numeric step has an
//! exact integer meaning that the contracts state.

pub mod scalar;
pub mod fuzzy_eq;
pub mod tuple;
pub mod color;
pub mod trig;
pub mod matrix;
pub mod ray;
pub mod lights;
pub mod pattern;
pub mod material;
pub mod sphere;
pub mod plane;
pub mod body;
pub mod intersections;
pub mod computed_intersection;
pub mod world;
pub mod camera;
pub mod canvas;
