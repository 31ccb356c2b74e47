//! The decisions of the ray-sphere intersection.
//!
//! Solving the quadratic, reprojecting the hit point and differentiating the
//! surface are rounding arithmetic and are done by the caller. What is
//! decided here is which root of the quadratic is the hit, whether a hit
//! point is cut away by the clipping planes and the sweep angle, whether the
//! other root is to be tried, and which way the normal points.
use vstd::prelude::*;
use crate::aabb::{Aabb, Bounded};
use crate::efloat::EFloat;
use crate::float::Float;
use crate::geometry::{Normal3, Point3f, Vec3f};

verus! {

/// The encoding of pi, the polar angle of the lowest point of a sphere.
pub const PI_BITS: u32 = 0x4049_0fdb;

/// The encoding of 2 pi, a full sweep in radians.
pub const TWO_PI_BITS: u32 = 0x40c9_0fdb;

/// The encoding of 360, a full sweep in degrees.
pub const FULL_SWEEP_DEGREES_BITS: u32 = 0x43b4_0000;

/// One of the two roots of the intersection quadratic.
#[derive(Clone, Copy, Debug, PartialEq, Eq, Structural)]
pub enum Root {
    /// The lesser root, where the ray enters.
    Near,
    /// The greater root, where the ray leaves.
    Far,
}

/// A sphere about the origin of its own coordinates, cut to the heights
/// `z_min..z_max` and to the azimuth `0..phi_max`.
#[derive(Clone, Copy, Debug)]
pub struct Sphere {
    reverse_orientation: bool,
    radius: Float,
    z_min: Float,
    z_max: Float,
    theta_min: Float,
    theta_max: Float,
    phi_max: Float,
}

/// Whether a root can be the hit: its whole interval lies above zero and at
/// or below the ray's bound.
pub open spec fn usable(t: EFloat, t_max: Float) -> bool {
    t.low.spec_gt(Float::spec_zero()) && t.high.spec_le(t_max)
}

/// The two roots are in order, with sound intervals, and the ray's bound is
/// a number.
pub open spec fn ordered_roots(t0: EFloat, t1: EFloat, t_max: Float) -> bool {
    t0.well_formed() && t1.well_formed() && t0.low.spec_le(t1.low) && t0.v.spec_le(t1.v)
        && t0.high.spec_le(t1.high) && !t_max.spec_is_nan()
}

/// The root to try first, by the bounds of the roots and not their nominal
/// values: none if the near root lies beyond the ray's bound or the far root
/// does not lie wholly above zero; else the near root if it lies wholly
/// above zero; else the far root if it lies within the ray's bound.
pub open spec fn spec_first_candidate(t0: EFloat, t1: EFloat, t_max: Float) -> Option<Root> {
    if t0.high.spec_gt(t_max) || t1.low.spec_le(Float::spec_zero()) {
        None
    } else if t0.low.spec_le(Float::spec_zero()) {
        if t1.high.spec_gt(t_max) {
            None
        } else {
            Some(Root::Far)
        }
    } else {
        Some(Root::Near)
    }
}

/// The root to try after the hit point of `tried` was cut away: the far
/// root, if the near one was tried, the two differ and the far one lies
/// within the ray's bound.
pub open spec fn spec_next_candidate(tried: Root, t0: EFloat, t1: EFloat, t_max: Float) -> Option<
    Root,
> {
    if tried == Root::Far || t0.v.spec_equals(t1.v) || t1.high.spec_gt(t_max) {
        None
    } else {
        Some(Root::Far)
    }
}

/// The root that is the hit, given for each root whether its hit point is
/// cut away.
pub open spec fn spec_resolve(
    t0: EFloat,
    t1: EFloat,
    t_max: Float,
    near_clipped: bool,
    far_clipped: bool,
) -> Option<Root> {
    match spec_first_candidate(t0, t1, t_max) {
        None => None,
        Some(Root::Near) => if !near_clipped {
            Some(Root::Near)
        } else {
            match spec_next_candidate(Root::Near, t0, t1, t_max) {
                Some(Root::Far) => if far_clipped {
                    None
                } else {
                    Some(Root::Far)
                },
                _ => None,
            }
        },
        Some(Root::Far) => if far_clipped {
            None
        } else {
            Some(Root::Far)
        },
    }
}

pub fn first_candidate(t0: EFloat, t1: EFloat, t_max: Float) -> (c: Option<Root>)
    ensures
        c == spec_first_candidate(t0, t1, t_max),
        ordered_roots(t0, t1, t_max) ==> (c == Some(Root::Near) <==> usable(t0, t_max)),
        ordered_roots(t0, t1, t_max) ==> (c == Some(Root::Far) <==> !usable(t0, t_max) && usable(
            t1,
            t_max,
        )),
{
    if t0.upper_bound().gt(t_max) || t1.lower_bound().le(Float::zero()) {
        return None;
    }
    if t0.lower_bound().le(Float::zero()) {
        if t1.upper_bound().gt(t_max) {
            None
        } else {
            Some(Root::Far)
        }
    } else {
        Some(Root::Near)
    }
}

pub fn next_candidate(tried: Root, t0: EFloat, t1: EFloat, t_max: Float) -> (c: Option<Root>)
    ensures
        c == spec_next_candidate(tried, t0, t1, t_max),
        c is Some ==> c == Some(Root::Far) && tried == Root::Near,
{
    match tried {
        Root::Far => None,
        Root::Near => {
            if t0.value().equals(t1.value()) || t1.upper_bound().gt(t_max) {
                None
            } else {
                Some(Root::Far)
            }
        },
    }
}

/// The whole search at once, for a caller that has the clipping verdict of
/// both hit points at hand.
pub fn resolve(t0: EFloat, t1: EFloat, t_max: Float, near_clipped: bool, far_clipped: bool) -> (c:
    Option<Root>)
    ensures
        c == spec_resolve(t0, t1, t_max, near_clipped, far_clipped),
{
    match first_candidate(t0, t1, t_max) {
        None => None,
        Some(Root::Near) => {
            if !near_clipped {
                Some(Root::Near)
            } else {
                match next_candidate(Root::Near, t0, t1, t_max) {
                    Some(Root::Far) => if far_clipped {
                        None
                    } else {
                        Some(Root::Far)
                    },
                    _ => None,
                }
            }
        },
        Some(Root::Far) => if far_clipped {
            None
        } else {
            Some(Root::Far)
        },
    }
}

/// The search finds the nearest root that can be the hit and whose hit
/// point is not cut away, where the two roots differ. It reports the near
/// root exactly when that root is usable and not cut away; the far root
/// exactly when the near one is not reported and the far one is usable and
/// not cut away; and a root that it reports is usable.
pub proof fn lemma_resolve_finds_nearest(
    t0: EFloat,
    t1: EFloat,
    t_max: Float,
    near_clipped: bool,
    far_clipped: bool,
)
    requires
        ordered_roots(t0, t1, t_max),
        !t0.v.spec_equals(t1.v),
    ensures
        spec_resolve(t0, t1, t_max, near_clipped, far_clipped) == Some(Root::Near) <==> usable(
            t0,
            t_max,
        ) && !near_clipped,
        spec_resolve(t0, t1, t_max, near_clipped, far_clipped) == Some(Root::Far) <==> !(usable(
            t0,
            t_max,
        ) && !near_clipped) && usable(t1, t_max) && !far_clipped,
{
}

/// Where the two roots are one and the same number, the search reports it
/// exactly when it is usable and its hit point is not cut away, and never
/// tries it twice.
pub proof fn lemma_resolve_double_root(t0: EFloat, t1: EFloat, t_max: Float, clipped: bool)
    requires
        ordered_roots(t0, t1, t_max),
        t0 == t1,
    ensures
        spec_resolve(t0, t1, t_max, clipped, clipped) is Some <==> usable(t0, t_max) && !clipped,
        spec_resolve(t0, t1, t_max, clipped, clipped) != Some(Root::Far),
{
}

/// A root that the search reports lies, with its whole interval, above zero
/// and within the ray's bound, so narrowing the ray to it never lengthens
/// the ray.
pub proof fn lemma_reported_root_is_within_ray(
    t0: EFloat,
    t1: EFloat,
    t_max: Float,
    near_clipped: bool,
    far_clipped: bool,
)
    requires
        ordered_roots(t0, t1, t_max),
    ensures
        spec_resolve(t0, t1, t_max, near_clipped, far_clipped) == Some(Root::Near) ==> usable(
            t0,
            t_max,
        ) && t0.v.spec_le(t_max) && t0.v.spec_gt(Float::spec_zero()),
        spec_resolve(t0, t1, t_max, near_clipped, far_clipped) == Some(Root::Far) ==> usable(
            t1,
            t_max,
        ) && t1.v.spec_le(t_max) && t1.v.spec_gt(Float::spec_zero()),
{
}

impl Sphere {
    pub closed spec fn spec_reverse_orientation(self) -> bool {
        self.reverse_orientation
    }

    pub closed spec fn spec_radius(self) -> Float {
        self.radius
    }

    pub closed spec fn spec_z_min(self) -> Float {
        self.z_min
    }

    pub closed spec fn spec_z_max(self) -> Float {
        self.z_max
    }

    pub closed spec fn spec_theta_min(self) -> Float {
        self.theta_min
    }

    pub closed spec fn spec_theta_max(self) -> Float {
        self.theta_max
    }

    pub closed spec fn spec_phi_max(self) -> Float {
        self.phi_max
    }

    /// What holds of the parameters of every sphere: the radius is a number
    /// and not negative, and none of the other orders is broken: the lower
    /// clipping height is not below `-radius` nor above the upper one, the
    /// upper one is not above the radius, the lesser polar angle is not
    /// above the greater, and the sweep is not negative. A parameter other
    /// than the radius may be a NaN, which breaks no order; where all are
    /// numbers, they are in order (see `lemma_parameters_are_ordered`).
    pub open spec fn valid_parameters(
        radius: Float,
        z_min: Float,
        z_max: Float,
        theta_min: Float,
        theta_max: Float,
        phi_max: Float,
    ) -> bool {
        &&& Float::spec_zero().spec_le(radius)
        &&& !z_min.spec_lt(radius.negated())
        &&& !z_min.spec_gt(z_max)
        &&& !z_max.spec_gt(radius)
        &&& !theta_min.spec_gt(theta_max)
        &&& !phi_max.spec_lt(Float::spec_zero())
    }

    pub open spec fn well_formed(self) -> bool {
        Sphere::valid_parameters(
            self.spec_radius(),
            self.spec_z_min(),
            self.spec_z_max(),
            self.spec_theta_min(),
            self.spec_theta_max(),
            self.spec_phi_max(),
        )
    }

    #[verifier::type_invariant]
    spec fn type_inv(self) -> bool {
        self.well_formed()
    }

    /// The two clipping heights put in order and moved into
    /// `[-radius, radius]`.
    pub open spec fn spec_clip_heights(radius: Float, z_min: Float, z_max: Float) -> (Float, Float) {
        (
            z_min.spec_min(z_max).spec_clamp(radius.negated(), radius),
            z_min.spec_max(z_max).spec_clamp(radius.negated(), radius),
        )
    }

    /// Whether a hit point at height `z` and azimuth `phi` is cut away: it
    /// lies below the lower clipping plane or above the upper one, where
    /// that plane cuts the sphere at all, or beyond the sweep.
    pub open spec fn spec_is_clipped(self, z: Float, phi: Float) -> bool {
        ||| (self.spec_z_min().spec_gt(self.spec_radius().negated()) && z.spec_lt(self.spec_z_min()))
        ||| (self.spec_z_max().spec_lt(self.spec_radius()) && z.spec_gt(self.spec_z_max()))
        ||| phi.spec_gt(self.spec_phi_max())
    }

    /// The normal as the sphere shows it: turned over if the orientation is
    /// reversed.
    pub open spec fn spec_orient(self, n: Normal3) -> Normal3 {
        if self.spec_reverse_orientation() {
            n.flipped()
        } else {
            n
        }
    }

    /// The box around the sphere in its own coordinates.
    pub open spec fn spec_object_bound(self) -> Aabb {
        Aabb {
            min: Vec3f {
                x: self.spec_radius().negated(),
                y: self.spec_radius().negated(),
                z: self.spec_z_min(),
            },
            max: Vec3f { x: self.spec_radius(), y: self.spec_radius(), z: self.spec_z_max() },
        }
    }

    /// Orders the two clipping heights and moves them into
    /// `[-radius, radius]`.
    pub fn clip_heights(radius: Float, z_min: Float, z_max: Float) -> (r: (Float, Float))
        requires
            Float::spec_zero().spec_le(radius),
        ensures
            r == Sphere::spec_clip_heights(radius, z_min, z_max),
            !(z_min.spec_is_nan() && z_max.spec_is_nan()) ==> radius.negated().spec_le(r.0)
                && r.0.spec_le(r.1) && r.1.spec_le(radius),
            !r.0.spec_lt(radius.negated()) && !r.0.spec_gt(r.1) && !r.1.spec_gt(radius),
    {
        let low = radius.neg();
        (z_min.min(z_max).clamp(low, radius), z_min.max(z_max).clamp(low, radius))
    }

    /// Moves a sweep angle in degrees into `[0, 360]`.
    pub fn clip_sweep(phi_max: Float) -> (r: Float)
        ensures
            r == phi_max.spec_clamp(Float::spec_zero(), Float::spec_from_bits(FULL_SWEEP_DEGREES_BITS)),
            !r.spec_lt(Float::spec_zero()),
    {
        phi_max.clamp(Float::zero(), Float::from_bits(FULL_SWEEP_DEGREES_BITS))
    }

    /// A sphere from its parameters: the heights as `clip_heights` gives
    /// them, the polar angles of the two clipping planes in ascending order
    /// and the sweep in radians. None where the parameters are not valid,
    /// which the heights of `clip_heights`, angles in ascending order and a
    /// clipped sweep never are for a radius that is not negative.
    pub fn new(
        reverse_orientation: bool,
        radius: Float,
        z_min: Float,
        z_max: Float,
        theta_min: Float,
        theta_max: Float,
        phi_max: Float,
    ) -> (s: Option<Sphere>)
        ensures
            s is Some <==> Sphere::valid_parameters(
                radius,
                z_min,
                z_max,
                theta_min,
                theta_max,
                phi_max,
            ),
            s matches Some(sphere) ==> {
                &&& sphere.spec_reverse_orientation() == reverse_orientation
                &&& sphere.spec_radius() == radius
                &&& sphere.spec_z_min() == z_min
                &&& sphere.spec_z_max() == z_max
                &&& sphere.spec_theta_min() == theta_min
                &&& sphere.spec_theta_max() == theta_max
                &&& sphere.spec_phi_max() == phi_max
                &&& sphere.well_formed()
            },
    {
        if Float::zero().le(radius) && !z_min.lt(radius.neg()) && !z_min.gt(z_max) && !z_max.gt(
            radius,
        ) && !theta_min.gt(theta_max) && !phi_max.lt(Float::zero()) {
            Some(
                Sphere {
                    reverse_orientation,
                    radius,
                    z_min,
                    z_max,
                    theta_min,
                    theta_max,
                    phi_max,
                },
            )
        } else {
            None
        }
    }

    /// The uncut sphere of a radius: heights from `-radius` to `radius`,
    /// polar angles from 0 to pi, a sweep of 2 pi. None where the radius is
    /// negative or a NaN.
    pub fn whole(radius: Float) -> (s: Option<Sphere>)
        ensures
            s is Some <==> Float::spec_zero().spec_le(radius),
            s matches Some(sphere) ==> {
                &&& !sphere.spec_reverse_orientation()
                &&& sphere.spec_radius() == radius
                &&& sphere.spec_z_min() == radius.negated()
                &&& sphere.spec_z_max() == radius
                &&& sphere.spec_theta_min() == Float::spec_zero()
                &&& sphere.spec_theta_max() == Float::spec_from_bits(PI_BITS)
                &&& sphere.spec_phi_max() == Float::spec_from_bits(TWO_PI_BITS)
                &&& sphere.well_formed()
            },
    {
        Sphere::new(
            false,
            radius,
            radius.neg(),
            radius,
            Float::zero(),
            Float::from_bits(PI_BITS),
            Float::from_bits(TWO_PI_BITS),
        )
    }

    pub fn reverse_orientation(&self) -> (r: bool)
        ensures
            r == self.spec_reverse_orientation(),
    {
        self.reverse_orientation
    }

    pub fn radius(&self) -> (r: Float)
        ensures
            r == self.spec_radius(),
    {
        self.radius
    }

    pub fn z_min(&self) -> (r: Float)
        ensures
            r == self.spec_z_min(),
    {
        self.z_min
    }

    pub fn z_max(&self) -> (r: Float)
        ensures
            r == self.spec_z_max(),
    {
        self.z_max
    }

    pub fn theta_min(&self) -> (r: Float)
        ensures
            r == self.spec_theta_min(),
    {
        self.theta_min
    }

    pub fn theta_max(&self) -> (r: Float)
        ensures
            r == self.spec_theta_max(),
    {
        self.theta_max
    }

    pub fn phi_max(&self) -> (r: Float)
        ensures
            r == self.spec_phi_max(),
    {
        self.phi_max
    }

    /// Whether a reprojected hit point lies on the axis of the sphere,
    /// where the azimuth is undefined and the point has to be nudged aside.
    pub fn on_axis(p: Point3f) -> (r: bool)
        ensures
            r == (p.x.spec_is_zero() && p.y.spec_is_zero()),
    {
        p.x.is_zero() && p.y.is_zero()
    }

    pub fn is_clipped(&self, z: Float, phi: Float) -> (r: bool)
        ensures
            r == self.spec_is_clipped(z, phi),
            self.well_formed(),
    {
        proof {
            use_type_invariant(self);
        }
        (self.z_min.gt(self.radius.neg()) && z.lt(self.z_min)) || (self.z_max.lt(self.radius)
            && z.gt(self.z_max)) || phi.gt(self.phi_max)
    }

    /// The geometric normal as the surface shows it: turned over once if
    /// the orientation is reversed, else as it is.
    pub fn orient(&self, n: Normal3) -> (r: Normal3)
        ensures
            r == self.spec_orient(n),
    {
        if self.reverse_orientation {
            n.flip()
        } else {
            n
        }
    }

    pub fn object_bound(&self) -> (b: Aabb)
        ensures
            b == self.spec_object_bound(),
            !self.spec_z_min().spec_is_nan() && !self.spec_z_max().spec_is_nan()
                ==> b.well_formed(),
    {
        proof {
            use_type_invariant(self);
        }
        let low = self.radius.neg();
        Aabb {
            min: Vec3f { x: low, y: low, z: self.z_min },
            max: Vec3f { x: self.radius, y: self.radius, z: self.z_max },
        }
    }
}

/// A root of the uncut sphere that is usable is the hit: where the roots
/// are in order, the near root is usable and the azimuth of its hit point
/// is at most 2 pi, the search reports the near root, whatever the height
/// of the hit point and whatever becomes of the far root.
pub proof fn lemma_whole_sphere_is_hit(
    s: Sphere,
    t0: EFloat,
    t1: EFloat,
    t_max: Float,
    z: Float,
    phi: Float,
    far_clipped: bool,
)
    requires
        s.spec_z_min() == s.spec_radius().negated(),
        s.spec_z_max() == s.spec_radius(),
        s.spec_phi_max() == Float::spec_from_bits(TWO_PI_BITS),
        !s.spec_radius().spec_is_nan(),
        ordered_roots(t0, t1, t_max),
        usable(t0, t_max),
        phi.spec_le(Float::spec_from_bits(TWO_PI_BITS)),
    ensures
        spec_resolve(t0, t1, t_max, s.spec_is_clipped(z, phi), far_clipped) == Some(Root::Near),
{
    lemma_whole_sphere_keeps_hits(s, z, phi);
}

impl Bounded for Sphere {
    /// The box around the sphere in its own coordinates.
    fn aabb(&self) -> (b: Aabb)
        ensures
            b == self.spec_object_bound(),
    {
        self.object_bound()
    }
}

/// Where the parameters of a sphere are all numbers, they are in order: the
/// clipping heights lie between `-radius` and `radius`, the lower below the
/// upper, the lesser polar angle is at most the greater, and the sweep is
/// not negative.
pub proof fn lemma_parameters_are_ordered(s: Sphere)
    requires
        s.well_formed(),
        !s.spec_z_min().spec_is_nan(),
        !s.spec_z_max().spec_is_nan(),
        !s.spec_theta_min().spec_is_nan(),
        !s.spec_theta_max().spec_is_nan(),
        !s.spec_phi_max().spec_is_nan(),
    ensures
        s.spec_radius().negated().spec_le(s.spec_z_min()),
        s.spec_z_min().spec_le(s.spec_z_max()),
        s.spec_z_max().spec_le(s.spec_radius()),
        s.spec_theta_min().spec_le(s.spec_theta_max()),
        Float::spec_zero().spec_le(s.spec_phi_max()),
{
}

/// On the uncut sphere only the sweep cuts anything away: a hit point at a
/// height within the radius and an azimuth of at most 2 pi is kept.
pub proof fn lemma_whole_sphere_keeps_hits(s: Sphere, z: Float, phi: Float)
    requires
        s.spec_z_min() == s.spec_radius().negated(),
        s.spec_z_max() == s.spec_radius(),
        s.spec_phi_max() == Float::spec_from_bits(TWO_PI_BITS),
        !s.spec_radius().spec_is_nan(),
        phi.spec_le(Float::spec_from_bits(TWO_PI_BITS)),
    ensures
        !s.spec_is_clipped(z, phi),
{
}

} // verus!
