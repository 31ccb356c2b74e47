//! Area lights that emit the same radiance from every point.
use vstd::prelude::*;
use crate::spectrum::Spectrum;

verus! {

/// What is known of a diffuse area light before it is joined to its shape.
#[derive(Clone, Copy, Debug, PartialEq, Eq, Structural)]
pub struct DiffuseAreaLightBuilder {
    pub emit: Spectrum,
    pub n_samples: usize,
}

} // verus!
