//! Textures, as the constructors describe them.
use vstd::prelude::*;

pub mod checkerboard;
pub mod mapping;

verus! {

/// Where a texture's values come from: one value everywhere, or a texture
/// that the scene description has named.
#[derive(Debug)]
pub enum TextureSource<T> {
    Constant(T),
    Named(String),
}

} // verus!
