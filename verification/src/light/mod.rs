//! What the integrator asks of a light.
use vstd::prelude::*;
use crate::float::Float;
use crate::geometry::{Point3f, Ray, Vec3f};
use crate::interaction::SurfaceHit;
use crate::spectrum::Spectrum;

pub mod diffuse;
pub mod point;

verus! {

/// A light's contribution towards a point, as sampled.
#[derive(Clone, Copy, Debug, PartialEq, Eq, Structural)]
pub struct LiSample {
    pub radiance: Spectrum,
    /// The direction *towards* the illumination
    pub wi: Vec3f,
    pub pdf: Float,
    pub vis: VisibilityTester,
}

/// How a light source is distributed in space and direction.
#[derive(Clone, Copy, Debug, PartialEq, Eq, Structural)]
pub enum LightFlags {
    DeltaPosition,
    DeltaDirection,
    Area,
    Infinite,
}

/// The two ends of a segment that has to be free for light to pass.
#[derive(Clone, Copy, Debug, PartialEq, Eq, Structural)]
pub struct VisibilityTester {
    pub p0: SurfaceHit,
    pub p1: SurfaceHit,
}

impl LightFlags {
    /// A delta light has no extent: a single position or a single
    /// direction.
    pub open spec fn delta(self) -> bool {
        self is DeltaPosition || self is DeltaDirection
    }

    pub fn is_delta_light(&self) -> (r: bool)
        ensures
            r == self.delta(),
    {
        match self {
            LightFlags::DeltaDirection | LightFlags::DeltaPosition => true,
            _ => false,
        }
    }
}

impl LiSample {
    /// Whether the sample can add light: it carries some and its density is
    /// not zero. A sample that cannot is passed over, which saves the
    /// division by the density and the shadow ray.
    pub open spec fn spec_contributes(self) -> bool {
        !self.radiance.spec_is_black() && !self.pdf.spec_equals(Float::spec_zero())
    }

    pub fn contributes(&self) -> (r: bool)
        ensures
            r == self.spec_contributes(),
    {
        !(self.radiance.is_black() || self.pdf.equals(Float::zero()))
    }
}

impl VisibilityTester {
    /// The ray that is cast to see whether the segment is free: from
    /// `origin`, the first end moved off its surface, over `dir`, the whole
    /// way to the second end, stopping just short of it, at the time of the
    /// first end.
    pub fn shadow_ray(&self, origin: Point3f, dir: Vec3f) -> (ray: Ray)
        ensures
            ray.origin == origin,
            ray.dir == dir,
            ray.t_max == Float::spec_from_bits(crate::interaction::SEGMENT_T_MAX_BITS),
            ray.time == self.p0.time,
    {
        self.p0.spawn_ray_to_hit(self.p1, origin, dir)
    }

    /// Light passes exactly when the scene reports no intersection for the
    /// shadow ray; `blocked` is that report.
    pub fn unoccluded(&self, blocked: bool) -> (r: bool)
        ensures
            r == !blocked,
    {
        !blocked
    }
}

} // verus!
