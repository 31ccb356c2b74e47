//! From a point on a surface to the place in a texture.
use vstd::prelude::*;
use crate::float::Float;

verus! {

/// The mapping that scales and shifts the surface's own parameters.
#[derive(Clone, Copy, Debug, PartialEq, Eq, Structural)]
pub struct UVMapping {
    pub su: Float,
    pub sv: Float,
    pub du: Float,
    pub dv: Float,
}

impl UVMapping {
    pub fn new(su: Float, sv: Float, du: Float, dv: Float) -> (m: UVMapping)
        ensures
            m == (UVMapping { su, sv, du, dv }),
    {
        UVMapping { su, sv, du, dv }
    }
}

} // verus!
