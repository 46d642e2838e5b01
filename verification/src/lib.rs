//! A small ray-tracing renderer built on fixed-point arithmetic.
//!
//! The scene model follows the classic design: homogeneous tuple algebra,
//! 4x4 transforms with cached inverses, a closed set of shapes (sphere,
//! plane), sorted intersection lists with hit selection and refractive-index
//! tracking, a Phong material and pattern model, a recursive world shader
//! with a bounded depth, and a camera that projects pixels to rays.

pub mod camera;
pub mod canvas;
pub mod fx;
pub mod intersections;
pub mod lights;
pub mod materials;
pub mod matrices;
pub mod patterns;
pub mod rays;
pub mod shapes;
pub mod transformations;
pub mod tuples;
pub mod world;

pub use fx::Fx;
pub use tuples::{Point, Vector};
