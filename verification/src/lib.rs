//! The deciding core of a physically-based ray tracer.
//!
//! A renderer spends its time in rounding arithmetic, and what it computes
//! there is not proved here. What is proved is everything it decides: which
//! root of the intersection quadratic is the hit, which lights add to a
//! surface point and when a shadow ray is worth casting, how deep specular
//! bounces are followed, in which order the pixels of a tile are sampled,
//! that a radiance with a NaN never reaches the film, and that the tiles of
//! an image divide it without gap or overlap.
//!
//! Numbers are held as their IEEE-754 bit patterns (`float::Float`), so
//! that comparing, classifying and stepping them is integer arithmetic. A
//! caller supplies the arithmetic: it computes, hands the library plain
//! values, and does what the library says comes next.
pub mod aabb;
pub mod camera;
pub mod efloat;
pub mod float;
pub mod geometry;
pub mod integrator;
pub mod interaction;
pub mod light;
pub mod loaders;
pub mod material;
pub mod primitive;
pub mod shapes;
pub mod spectrum;
pub mod texture;
