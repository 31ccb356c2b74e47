//! What is known about a point where a ray met a surface.
use vstd::prelude::*;
use crate::float::Float;
use crate::geometry::{Differential, Normal3, Point2f, Point3f, Ray, RayDifferential, Vec3f};

verus! {

/// The encoding of the shadow epsilon, 0.0001.
pub const SHADOW_EPSILON_BITS: u32 = 0x38d1_b717;

/// The encoding of 1 less the shadow epsilon: the bound of a ray towards a
/// target, which makes it stop short of the target.
pub const SEGMENT_T_MAX_BITS: u32 = 0x3f7f_f972;

/// The encoding of 1e-10: a 2 by 2 system whose determinant is smaller in
/// absolute value counts as singular.
pub const SINGULAR_DETERMINANT_BITS: u32 = 0x2edb_e6ff;

/// A point on a surface: where it is, how far off the computed position may
/// be along each axis, when, and the geometric normal there.
#[derive(Clone, Copy, Debug, PartialEq, Eq, Structural)]
pub struct SurfaceHit {
    pub p: Point3f,
    pub p_err: Vec3f,
    pub time: Float,
    pub n: Normal3,
}

/// The derivatives of position and normal along the surface's parameters.
#[derive(Clone, Copy, Debug, PartialEq, Eq, Structural)]
pub struct DiffGeom {
    pub dpdu: Vec3f,
    pub dpdv: Vec3f,
    pub dndu: Normal3,
    pub dndv: Normal3,
}

/// Partial derivatives used for texture antialiasing: how position and the
/// surface parameters change from one pixel to the next.
#[derive(Clone, Copy, Debug, PartialEq, Eq, Structural)]
pub struct TextureDifferentials {
    pub dpdx: Vec3f,
    pub dpdy: Vec3f,
    pub dudx: Float,
    pub dvdx: Float,
    pub dudy: Float,
    pub dvdy: Float,
}

/// A surface hit with the surface's parametrization there, the direction
/// back along the ray, both derivative frames, the texture differentials
/// and a handle of the primitive that was hit.
#[derive(Clone, Copy, Debug)]
pub struct SurfaceInteraction {
    pub hit: SurfaceHit,
    /// (u, v) coordinates from the parametrization of the surface
    pub uv: Point2f,
    pub wo: Vec3f,
    pub geom: DiffGeom,
    pub shading_n: Normal3,
    pub shading_geom: DiffGeom,
    pub tex_diffs: TextureDifferentials,
    /// The place of the primitive in the scene's list, once one is known.
    pub primitive: Option<usize>,
}

impl TextureDifferentials {
    /// Whether the system from which the differentials are solved has no
    /// usable solution: its determinant is next to zero. A determinant that
    /// is a NaN is not caught here; it shows in the solution.
    pub open spec fn spec_is_singular(determinant: Float) -> bool {
        determinant.magnitude_only().spec_lt(Float::spec_from_bits(SINGULAR_DETERMINANT_BITS))
    }

    /// The solution of the system, if it is one: none where the system is
    /// singular or a part of the solution is not a number.
    pub open spec fn spec_solution(determinant: Float, x0: Float, x1: Float) -> Option<
        (Float, Float),
    > {
        if TextureDifferentials::spec_is_singular(determinant) || x0.spec_is_nan()
            || x1.spec_is_nan() {
            None
        } else {
            Some((x0, x1))
        }
    }

    pub fn is_singular(determinant: Float) -> (r: bool)
        ensures
            r == TextureDifferentials::spec_is_singular(determinant),
    {
        determinant.abs().lt(Float::from_bits(SINGULAR_DETERMINANT_BITS))
    }

    pub fn solution(determinant: Float, x0: Float, x1: Float) -> (r: Option<(Float, Float)>)
        ensures
            r == TextureDifferentials::spec_solution(determinant, x0, x1),
    {
        if TextureDifferentials::is_singular(determinant) || x0.is_nan() || x1.is_nan() {
            None
        } else {
            Some((x0, x1))
        }
    }

    /// No change at all: every derivative is zero.
    pub open spec fn spec_zero() -> TextureDifferentials {
        TextureDifferentials {
            dpdx: Vec3f::spec_zero(),
            dpdy: Vec3f::spec_zero(),
            dudx: Float::spec_zero(),
            dvdx: Float::spec_zero(),
            dudy: Float::spec_zero(),
            dvdy: Float::spec_zero(),
        }
    }
}

impl Default for TextureDifferentials {
    fn default() -> (d: TextureDifferentials)
        ensures
            d == TextureDifferentials::spec_zero(),
    {
        TextureDifferentials {
            dpdx: Vec3f::zero(),
            dpdy: Vec3f::zero(),
            dudx: Float::zero(),
            dvdx: Float::zero(),
            dudy: Float::zero(),
            dvdy: Float::zero(),
        }
    }
}

impl SurfaceHit {
    /// The error bound is a number, and not negative, along every axis.
    pub open spec fn well_formed(self) -> bool {
        self.p_err.spec_is_non_negative()
    }

    /// The offset that moves a ray's origin off the surface: `offset` where
    /// the ray leaves on the side of the normal, the opposite where it
    /// leaves on the other side. `facing` is the inner product of the ray's
    /// direction and the normal.
    pub open spec fn spec_offset_toward(offset: Vec3f, facing: Float) -> Vec3f {
        if facing.spec_lt(Float::spec_zero()) {
            offset.negated()
        } else {
            offset
        }
    }

    pub fn is_well_formed(&self) -> (r: bool)
        ensures
            r == self.well_formed(),
    {
        self.p_err.is_non_negative()
    }

    pub fn offset_toward(offset: Vec3f, facing: Float) -> (r: Vec3f)
        ensures
            r == SurfaceHit::spec_offset_toward(offset, facing),
    {
        if facing.lt(Float::zero()) {
            offset.neg()
        } else {
            offset
        }
    }

    /// The unbounded ray that leaves this point from `origin`, the point
    /// moved off the surface, along `dir`.
    pub fn spawn_ray(&self, origin: Point3f, dir: Vec3f) -> (ray: Ray)
        ensures
            ray.origin == origin,
            ray.dir == dir,
            ray.t_max == Float::spec_from_bits(crate::float::INFINITY_BITS),
            ray.time == self.time,
    {
        Ray { origin, dir, t_max: Float::infinity(), time: self.time }
    }

    /// As `spawn_ray`, with the neighbouring rays that the caller derived.
    pub fn spawn_ray_with_dfferentials(
        &self,
        origin: Point3f,
        dir: Vec3f,
        diff: Option<Differential>,
    ) -> (r: RayDifferential)
        ensures
            r.ray.origin == origin,
            r.ray.dir == dir,
            r.ray.t_max == Float::spec_from_bits(crate::float::INFINITY_BITS),
            r.ray.time == self.time,
            r.diff == diff,
    {
        let ray = self.spawn_ray(origin, dir);
        RayDifferential { ray, diff }
    }

    /// The ray from `origin`, the point moved off the surface, to a target:
    /// `dir` is the whole way to the target, and the ray ends just short of
    /// it.
    pub fn spawn_ray_to(&self, origin: Point3f, dir: Vec3f) -> (ray: Ray)
        ensures
            ray.origin == origin,
            ray.dir == dir,
            ray.t_max == Float::spec_from_bits(SEGMENT_T_MAX_BITS),
            ray.t_max.spec_lt(Float::spec_from_bits(crate::float::ONE_BITS)),
            ray.t_max.spec_gt(Float::spec_zero()),
            ray.time == self.time,
    {
        Ray { origin, dir, t_max: Float::from_bits(SEGMENT_T_MAX_BITS), time: self.time }
    }
}

impl SurfaceHit {
    /// The ray from `origin`, this point moved off its surface, to another
    /// hit: `dir` is the whole way to the other point, moved off its surface
    /// too, and the ray ends just short of it. It runs at the time of this
    /// hit, whatever the time of the other.
    pub fn spawn_ray_to_hit(&self, to: SurfaceHit, origin: Point3f, dir: Vec3f) -> (ray: Ray)
        ensures
            ray.origin == origin,
            ray.dir == dir,
            ray.t_max == Float::spec_from_bits(SEGMENT_T_MAX_BITS),
            ray.time == self.time,
    {
        self.spawn_ray_to(origin, dir)
    }
}

impl SurfaceInteraction {
    /// The two axes onto which the texture-differential system is
    /// projected: those that are left when the axis along which the normal
    /// is longest is dropped.
    pub open spec fn spec_projection_axes(n: Normal3) -> (usize, usize) {
        let x = n.0.x.magnitude_only();
        let y = n.0.y.magnitude_only();
        let z = n.0.z.magnitude_only();
        if x.spec_gt(y) && x.spec_gt(z) {
            (1, 2)
        } else if y.spec_gt(z) {
            (0, 2)
        } else {
            (0, 1)
        }
    }

    /// A fresh interaction: the shading frame is the geometric one, the
    /// texture differentials are zero and no primitive is known yet.
    pub fn new(
        p: Point3f,
        p_err: Vec3f,
        time: Float,
        uv: Point2f,
        wo: Vec3f,
        n: Normal3,
        geom: DiffGeom,
    ) -> (si: SurfaceInteraction)
        ensures
            si.hit == (SurfaceHit { p, p_err, time, n }),
            si.uv == uv,
            si.wo == wo,
            si.geom == geom,
            si.shading_n == n,
            si.shading_geom == geom,
            si.tex_diffs == TextureDifferentials::spec_zero(),
            si.primitive is None,
    {
        SurfaceInteraction {
            hit: SurfaceHit { p, p_err, time, n },
            uv,
            wo,
            geom,
            shading_n: n,
            shading_geom: geom,
            tex_diffs: TextureDifferentials::default(),
            primitive: None,
        }
    }

    pub fn projection_axes(&self) -> (axes: (usize, usize))
        ensures
            axes == SurfaceInteraction::spec_projection_axes(self.hit.n),
            axes.0 < axes.1 < 3,
    {
        let x = self.hit.n.0.x.abs();
        let y = self.hit.n.0.y.abs();
        let z = self.hit.n.0.z.abs();
        if x.gt(y) && x.gt(z) {
            (1, 2)
        } else if y.gt(z) {
            (0, 2)
        } else {
            (0, 1)
        }
    }

    /// Takes over the texture differentials that were solved for, or zero
    /// ones where there are none: without them texture filtering falls back
    /// to point sampling.
    pub fn set_tex_differentials(&mut self, solved: Option<TextureDifferentials>)
        ensures
            final(self).tex_diffs == match solved {
                Some(d) => d,
                None => TextureDifferentials::spec_zero(),
            },
            final(self).hit == old(self).hit,
            final(self).uv == old(self).uv,
            final(self).wo == old(self).wo,
            final(self).geom == old(self).geom,
            final(self).shading_n == old(self).shading_n,
            final(self).shading_geom == old(self).shading_geom,
            final(self).primitive == old(self).primitive,
    {
        self.tex_diffs = match solved {
            Some(d) => d,
            None => TextureDifferentials::default(),
        };
    }
}

/// The axis that `projection_axes` drops is one along which the normal is
/// longest: no component of a normal without NaNs exceeds, in absolute
/// value, the component along the axis that is not among the two chosen.
pub proof fn lemma_projection_drops_longest(n: Normal3)
    requires
        !n.0.spec_has_nans(),
    ensures
        ({
            let axes = SurfaceInteraction::spec_projection_axes(n);
            let dropped = 3 - axes.0 - axes.1;
            &&& 0 <= dropped < 3
            &&& n.0.spec_component(axes.0 as int).magnitude() <= n.0.spec_component(
                dropped,
            ).magnitude()
            &&& n.0.spec_component(axes.1 as int).magnitude() <= n.0.spec_component(
                dropped,
            ).magnitude()
        }),
{
}

} // verus!
