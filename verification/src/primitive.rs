//! A shape joined to its material and, where it emits, to its light.
use vstd::prelude::*;
use crate::float::Float;
use crate::geometry::Ray;
use crate::interaction::SurfaceInteraction;

verus! {

/// A shape with what belongs to it, each named by its place in the scene's
/// lists.
#[derive(Clone, Copy, Debug, PartialEq, Eq, Structural)]
pub struct GeometricPrimitive {
    pub shape: usize,
    pub material: Option<usize>,
    pub light: Option<usize>,
}

impl GeometricPrimitive {
    /// Makes the primitive an emitter: `light` is the area light built over
    /// its shape.
    pub fn set_emitter(&mut self, light: usize)
        ensures
            final(self).light == Some(light),
            final(self).shape == old(self).shape,
            final(self).material == old(self).material,
    {
        self.light = Some(light);
    }

    /// What the primitive reports for a ray, given what its shape found:
    /// the shape's interaction, marked with `handle`, the place of this
    /// primitive, and the ray shortened to the hit. A hit beyond the ray's
    /// bound is no hit, so the bound never grows.
    pub fn intersect(
        &self,
        handle: usize,
        shape_hit: Option<(Float, SurfaceInteraction)>,
        ray: &mut Ray,
    ) -> (hit: Option<SurfaceInteraction>)
        ensures
            match shape_hit {
                Some((t_hit, found)) if t_hit.spec_le(old(ray).t_max) => {
                    &&& hit == Some(SurfaceInteraction { primitive: Some(handle), ..found })
                    &&& *final(ray) == (Ray { t_max: t_hit, ..*old(ray) })
                },
                _ => hit is None && *final(ray) == *old(ray),
            },
            !old(ray).t_max.spec_is_nan() ==> final(ray).t_max.spec_le(old(ray).t_max),
    {
        match shape_hit {
            None => None,
            Some((t_hit, found)) => {
                if ray.narrow(t_hit) {
                    let mut marked = found;
                    marked.primitive = Some(handle);
                    Some(marked)
                } else {
                    None
                }
            },
        }
    }

    pub fn material(&self) -> (m: Option<usize>)
        ensures
            m == self.material,
    {
        self.material
    }

    pub fn area_light(&self) -> (l: Option<usize>)
        ensures
            l == self.light,
    {
        self.light
    }
}

} // verus!
