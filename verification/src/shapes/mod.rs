//! Geometric primitives.
pub mod sphere;
pub mod triangle;
