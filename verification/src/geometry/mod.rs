//! Points, vectors, normals and rays, with coordinates held as bit patterns.
use vstd::prelude::*;
use crate::float::Float;

pub mod bounds;

verus! {

/// A direction or displacement in space.
#[derive(Clone, Copy, Debug, PartialEq, Eq, Structural)]
pub struct Vec3f {
    pub x: Float,
    pub y: Float,
    pub z: Float,
}

/// A position in space.
#[derive(Clone, Copy, Debug, PartialEq, Eq, Structural)]
pub struct Point3f {
    pub x: Float,
    pub y: Float,
    pub z: Float,
}

/// A position on the film, on the lens or in a surface's parameter plane.
#[derive(Clone, Copy, Debug, PartialEq, Eq, Structural)]
pub struct Point2f {
    pub x: Float,
    pub y: Float,
}

/// A pixel position.
#[derive(Clone, Copy, Debug, PartialEq, Eq, Structural)]
pub struct Point2i {
    pub x: i32,
    pub y: i32,
}

/// A surface normal. It is kept apart from `Vec3f` because a change of
/// coordinates moves it by the inverse transpose.
#[derive(Clone, Copy, Debug, PartialEq, Eq, Structural)]
pub struct Normal3(pub Vec3f);

impl Vec3f {
    pub open spec fn spec_zero() -> Vec3f {
        Vec3f { x: Float { bits: 0 }, y: Float { bits: 0 }, z: Float { bits: 0 } }
    }

    /// The component along an axis: 0 for x, 1 for y, anything else for z.
    pub open spec fn spec_component(self, axis: int) -> Float {
        if axis == 0 {
            self.x
        } else if axis == 1 {
            self.y
        } else {
            self.z
        }
    }

    pub open spec fn negated(self) -> Vec3f {
        Vec3f { x: self.x.negated(), y: self.y.negated(), z: self.z.negated() }
    }

    pub open spec fn spec_has_nans(self) -> bool {
        self.x.spec_is_nan() || self.y.spec_is_nan() || self.z.spec_is_nan()
    }

    /// No component is a NaN or below zero.
    pub open spec fn spec_is_non_negative(self) -> bool {
        Float { bits: 0 }.spec_le(self.x) && Float { bits: 0 }.spec_le(self.y) && Float {
            bits: 0,
        }.spec_le(self.z)
    }

    pub fn new(x: Float, y: Float, z: Float) -> (v: Vec3f)
        ensures
            v == (Vec3f { x, y, z }),
    {
        Vec3f { x, y, z }
    }

    pub fn zero() -> (v: Vec3f)
        ensures
            v == Vec3f::spec_zero(),
    {
        Vec3f { x: Float::zero(), y: Float::zero(), z: Float::zero() }
    }

    pub fn component(self, axis: usize) -> (c: Float)
        ensures
            c == self.spec_component(axis as int),
    {
        if axis == 0 {
            self.x
        } else if axis == 1 {
            self.y
        } else {
            self.z
        }
    }

    /// The vector of the same length that points the other way.
    pub fn neg(self) -> (v: Vec3f)
        ensures
            v == self.negated(),
    {
        Vec3f { x: self.x.neg(), y: self.y.neg(), z: self.z.neg() }
    }

    pub fn has_nans(self) -> (r: bool)
        ensures
            r == self.spec_has_nans(),
    {
        self.x.is_nan() || self.y.is_nan() || self.z.is_nan()
    }

    pub fn is_non_negative(self) -> (r: bool)
        ensures
            r == self.spec_is_non_negative(),
    {
        Float::zero().le(self.x) && Float::zero().le(self.y) && Float::zero().le(self.z)
    }
}

impl Point3f {
    pub open spec fn spec_origin() -> Point3f {
        Point3f { x: Float { bits: 0 }, y: Float { bits: 0 }, z: Float { bits: 0 } }
    }

    pub fn new(x: Float, y: Float, z: Float) -> (p: Point3f)
        ensures
            p == (Point3f { x, y, z }),
    {
        Point3f { x, y, z }
    }

    pub fn origin() -> (p: Point3f)
        ensures
            p == Point3f::spec_origin(),
    {
        Point3f { x: Float::zero(), y: Float::zero(), z: Float::zero() }
    }

    /// The displacement from the origin to the point.
    pub fn to_vec(self) -> (v: Vec3f)
        ensures
            v == (Vec3f { x: self.x, y: self.y, z: self.z }),
    {
        Vec3f { x: self.x, y: self.y, z: self.z }
    }
}

impl Point2f {
    pub fn new(x: Float, y: Float) -> (p: Point2f)
        ensures
            p == (Point2f { x, y }),
    {
        Point2f { x, y }
    }
}

impl Point2i {
    pub fn new(x: i32, y: i32) -> (p: Point2i)
        ensures
            p == (Point2i { x, y }),
    {
        Point2i { x, y }
    }
}

impl Normal3 {
    /// The normal of the other side of the surface.
    pub open spec fn flipped(self) -> Normal3 {
        Normal3(self.0.negated())
    }

    pub fn flip(self) -> (n: Normal3)
        ensures
            n == self.flipped(),
    {
        Normal3(self.0.neg())
    }
}

/// Flipping the sign twice gives the number back, bit for bit.
pub proof fn lemma_negated_twice(a: Float)
    ensures
        a.negated().negated() == a,
        a.negated().spec_is_nan() == a.spec_is_nan(),
        a.negated().rank() == -a.rank(),
{
}

/// Flipping a normal twice gives the normal back.
pub proof fn lemma_flipped_twice(n: Normal3)
    ensures
        n.flipped().flipped() == n,
{
    lemma_negated_twice(n.0.x);
    lemma_negated_twice(n.0.y);
    lemma_negated_twice(n.0.z);
}

/// A 4 by 4 matrix, row by row.
#[derive(Clone, Copy, Debug)]
pub struct Matrix4 {
    pub rows: [[Float; 4]; 4],
}

/// A change of coordinates, held together with its inverse.
#[derive(Clone, Copy, Debug)]
pub struct Transform {
    pub t: Matrix4,
    pub invt: Matrix4,
}

impl Transform {
    /// The change of coordinates in the other direction.
    pub fn inverse(&self) -> (r: Transform)
        ensures
            r.t == self.invt,
            r.invt == self.t,
    {
        Transform { t: self.invt, invt: self.t }
    }
}

/// A half-line or segment: the points `origin + t * dir` for `0 <= t <= t_max`.
#[derive(Clone, Copy, Debug, PartialEq, Eq, Structural)]
pub struct Ray {
    pub origin: Point3f,
    pub dir: Vec3f,
    pub t_max: Float,
    pub time: Float,
}

impl Ray {
    /// A ray without an upper bound, at time 0.
    pub fn new(origin: Point3f, dir: Vec3f) -> (ray: Ray)
        ensures
            ray == (Ray { origin, dir, t_max: Float { bits: crate::float::INFINITY_BITS }, time: Float { bits: 0 } }),
    {
        Ray { origin, dir, t_max: Float::infinity(), time: Float::zero() }
    }

    /// Shortens the ray to a hit at parameter `t_hit` if that is no farther
    /// than the present bound, and says whether it did. The bound never
    /// grows.
    pub fn narrow(&mut self, t_hit: Float) -> (narrowed: bool)
        ensures
            narrowed == t_hit.spec_le(old(self).t_max),
            *final(self) == (Ray { t_max: if narrowed { t_hit } else { old(self).t_max }, ..*old(self) }),
            !old(self).t_max.spec_is_nan() ==> final(self).t_max.spec_le(old(self).t_max),
    {
        if t_hit.le(self.t_max) {
            self.t_max = t_hit;
            true
        } else {
            false
        }
    }
}

/// The two neighbouring rays of a camera ray, one pixel over in x and in y.
#[derive(Clone, Copy, Debug, PartialEq, Eq, Structural)]
pub struct Differential {
    pub rx_origin: Point3f,
    pub rx_dir: Vec3f,
    pub ry_origin: Point3f,
    pub ry_dir: Vec3f,
}

/// A ray with, where they are known, its two neighbouring rays.
#[derive(Clone, Copy, Debug)]
pub struct RayDifferential {
    pub ray: Ray,
    pub diff: Option<Differential>,
}

impl RayDifferential {
    /// A ray about whose neighbours nothing is known.
    pub fn without_differentials(ray: Ray) -> (r: RayDifferential)
        ensures
            r.ray == ray,
            r.diff is None,
    {
        RayDifferential { ray, diff: None }
    }

    /// The main ray `ray` with the rays `rx` and `ry` as its neighbours in x
    /// and in y.
    pub fn from_rays(ray: Ray, rx: Ray, ry: Ray) -> (r: RayDifferential)
        ensures
            r.ray == ray,
            r.diff == Some(
                Differential {
                    rx_origin: rx.origin,
                    rx_dir: rx.dir,
                    ry_origin: ry.origin,
                    ry_dir: ry.dir,
                },
            ),
    {
        RayDifferential {
            ray,
            diff: Some(
                Differential {
                    rx_origin: rx.origin,
                    rx_dir: rx.dir,
                    ry_origin: ry.origin,
                    ry_dir: ry.dir,
                },
            ),
        }
    }
}

} // verus!
