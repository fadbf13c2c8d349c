//! Float-free core of a recursive Monte-Carlo sphere ray tracer.
//!
//! The numeric kernel (vectors, intersections, scattering formulas) works on
//! `f32` and lives with the program around this library. What is decided here
//! is everything that can be stated over integers and booleans: how material
//! references resolve, how the recursive shader terminates, which intersection
//! is the nearest, how the rejection samplers accept a candidate, and the order
//! in which pixels are emitted.

pub mod image;
pub mod integrator;
pub mod intersect;
pub mod material;
pub mod sampling;
