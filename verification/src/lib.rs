//! The decision core of a recursive Monte-Carlo ray tracer.
//!
//! Numbers are IEEE 754 binary64 values carried as their bit patterns, so that
//! every comparison, sign change and selection the tracer makes is an integer
//! computation with a proved contract. Arithmetic on those numbers is left to
//! the caller.

pub mod double;
pub mod value;
pub mod vec3;
pub mod sphere;
pub mod scene;
pub mod integrator;
pub mod material;
pub mod sampling;
