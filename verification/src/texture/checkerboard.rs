//! The checkerboard pattern.
use vstd::prelude::*;
use crate::texture::mapping::UVMapping;
use crate::texture::TextureSource;

verus! {

/// A texture that alternates between two textures from square to square of
/// the mapped parameters.
#[derive(Debug)]
pub struct Checkerboard2DTexture<T> {
    pub tex1: TextureSource<T>,
    pub tex2: TextureSource<T>,
    pub mapping: UVMapping,
}

impl<T> Checkerboard2DTexture<T> {
    pub fn new(tex1: TextureSource<T>, tex2: TextureSource<T>, mapping: UVMapping) -> (t:
        Checkerboard2DTexture<T>)
        ensures
            t.tex1 == tex1,
            t.tex2 == tex2,
            t.mapping == mapping,
    {
        Checkerboard2DTexture { tex1, tex2, mapping }
    }
}

} // verus!
