//! A light at a single point.
use vstd::prelude::*;
use crate::float::Float;
use crate::geometry::{Normal3, Point3f, Vec3f};
use crate::interaction::SurfaceHit;
use crate::light::{LiSample, LightFlags, VisibilityTester};
use crate::spectrum::Spectrum;

verus! {

/// A light that shines from one point, equally in all directions.
#[derive(Clone, Copy, Debug, PartialEq, Eq, Structural)]
pub struct PointLight {
    world_point: Point3f,
    intensity: Spectrum,
}

impl PointLight {
    pub closed spec fn spec_world_point(self) -> Point3f {
        self.world_point
    }

    pub closed spec fn spec_intensity(self) -> Spectrum {
        self.intensity
    }

    /// The end of the shadow segment at the light: the light's position,
    /// known exactly, with no surface and so a zero normal.
    pub open spec fn spec_target(self, time: Float) -> SurfaceHit {
        SurfaceHit {
            p: self.spec_world_point(),
            p_err: Vec3f::spec_zero(),
            time,
            n: Normal3(Vec3f::spec_zero()),
        }
    }

    pub fn new(world_point: Point3f, intensity: Spectrum) -> (light: PointLight)
        ensures
            light.spec_world_point() == world_point,
            light.spec_intensity() == intensity,
    {
        PointLight { world_point, intensity }
    }

    pub fn world_point(&self) -> (p: Point3f)
        ensures
            p == self.spec_world_point(),
    {
        self.world_point
    }

    pub fn intensity(&self) -> (i: Spectrum)
        ensures
            i == self.spec_intensity(),
    {
        self.intensity
    }

    pub fn flags(&self) -> (f: LightFlags)
        ensures
            f == LightFlags::DeltaPosition,
            f.delta(),
    {
        LightFlags::DeltaPosition
    }

    /// The sample of the light towards `reference`. The direction `wi` to
    /// the light and the radiance that arrives are computed by the caller;
    /// the light has one direction to offer, so the density is 1, and the
    /// segment to test runs from the reference point to the light.
    pub fn sample_incident_radiance(&self, reference: &SurfaceHit, wi: Vec3f, radiance: Spectrum) -> (s:
        LiSample)
        ensures
            s.radiance == radiance,
            s.wi == wi,
            s.pdf == Float::spec_from_bits(crate::float::ONE_BITS),
            s.vis.p0 == *reference,
            s.vis.p1 == self.spec_target(reference.time),
    {
        let p1 = SurfaceHit {
            p: self.world_point,
            p_err: Vec3f::zero(),
            time: reference.time,
            n: Normal3(Vec3f::zero()),
        };
        LiSample { radiance, wi, pdf: Float::one(), vis: VisibilityTester { p0: *reference, p1 } }
    }

    /// The density with which sampling any other way would find the
    /// light's direction: zero, whatever the direction.
    pub fn pdf_incident_radiance(&self, _reference: &SurfaceHit, _wi: Vec3f) -> (pdf: Float)
        ensures
            pdf == Float::spec_zero(),
    {
        Float::zero()
    }
}

} // verus!
