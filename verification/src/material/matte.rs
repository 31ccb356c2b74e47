//! The purely diffuse material.
use vstd::prelude::*;
use crate::spectrum::Spectrum;
use crate::texture::TextureSource;

verus! {

/// A material that scatters light equally in all directions, with the
/// colour that its texture gives.
#[derive(Debug)]
pub struct MatteMaterial {
    pub diffuse: TextureSource<Spectrum>,
}

impl MatteMaterial {
    pub fn new(diffuse: TextureSource<Spectrum>) -> (m: MatteMaterial)
        ensures
            m.diffuse == diffuse,
    {
        MatteMaterial { diffuse }
    }
}

} // verus!
