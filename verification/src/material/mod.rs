//! What the integrator asks of a material.
use vstd::prelude::*;

pub mod matte;

verus! {

/// Which quantity a path carries: radiance from the lights towards the
/// camera, or importance the other way.
#[derive(Debug, Eq, PartialEq, Clone, Copy, Structural)]
pub enum TransportMode {
    Radiance,
    Importance,
}

} // verus!
