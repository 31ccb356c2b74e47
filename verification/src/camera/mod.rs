//! The sample that a camera turns into a ray, and the assembly of a ray
//! with its neighbours.
use vstd::prelude::*;
use crate::float::Float;
use crate::geometry::{Point2f, Ray, RayDifferential};

verus! {

/// Where on the film, where on the lens and when in the shutter interval a
/// ray is to be generated.
#[derive(Clone, Copy, Debug, PartialEq, Eq, Structural)]
pub struct CameraSample {
    pub p_film: Point2f,
    pub p_lens: Point2f,
    pub time: Float,
}

impl CameraSample {
    /// The time lies in `[0, 1)`.
    pub open spec fn well_formed(self) -> bool {
        Float::spec_zero().spec_le(self.time) && self.time.spec_lt(
            Float::spec_from_bits(crate::float::ONE_BITS),
        )
    }

    pub fn is_well_formed(&self) -> (r: bool)
        ensures
            r == self.well_formed(),
    {
        Float::zero().le(self.time) && self.time.lt(Float::one())
    }
}

/// The weight of a ray with neighbours: zero where either neighbour has the
/// weight zero, else the weight of the main ray.
pub open spec fn differential_weight(weight: Float, weight_x: Float, weight_y: Float) -> Float {
    if weight_x.spec_equals(Float::spec_zero()) || weight_y.spec_equals(Float::spec_zero()) {
        Float::spec_zero()
    } else {
        weight
    }
}

/// Puts a camera ray together with the rays generated one pixel over in x
/// and in y. Each ray comes with its weight; a weight of zero says that the
/// ray is not to contribute.
pub fn generate_ray_differential(main: (Float, Ray), shifted_x: (Float, Ray), shifted_y: (Float, Ray)) -> (r:
    (Float, RayDifferential))
    ensures
        r.0 == differential_weight(main.0, shifted_x.0, shifted_y.0),
        r.1.ray == main.1,
        r.1.diff == Some(
            crate::geometry::Differential {
                rx_origin: shifted_x.1.origin,
                rx_dir: shifted_x.1.dir,
                ry_origin: shifted_y.1.origin,
                ry_dir: shifted_y.1.dir,
            },
        ),
{
    let ray_diff = RayDifferential::from_rays(main.1, shifted_x.1, shifted_y.1);
    let weight = if shifted_x.0.equals(Float::zero()) || shifted_y.0.equals(Float::zero()) {
        Float::zero()
    } else {
        main.0
    };
    (weight, ray_diff)
}

/// Whether the camera has a lens of some size, so that rays start on the
/// lens and pass through the plane of focus; a NaN counts as none.
pub fn has_lens(lens_radius: Float) -> (r: bool)
    ensures
        r == lens_radius.spec_gt(Float::spec_zero()),
{
    lens_radius.gt(Float::zero())
}

} // verus!
