//! Axis-aligned boxes.
use vstd::prelude::*;
use crate::geometry::Vec3f;

verus! {

/// Axis-aligned bounding box.
#[derive(Clone, Copy, Debug, PartialEq, Eq, Structural)]
pub struct Aabb {
    pub min: Vec3f,
    pub max: Vec3f,
}

/// Something that has a box around it.
pub trait Bounded {
    fn aabb(&self) -> Aabb;
}

impl Aabb {
    /// Along every axis the lower corner is at or below the upper one, and
    /// no coordinate is a NaN.
    pub open spec fn well_formed(self) -> bool {
        self.min.x.spec_le(self.max.x) && self.min.y.spec_le(self.max.y) && self.min.z.spec_le(
            self.max.z,
        )
    }

    pub fn with_bounds(min: Vec3f, max: Vec3f) -> (b: Aabb)
        ensures
            b == (Aabb { min, max }),
    {
        Aabb { min, max }
    }

    pub fn is_well_formed(&self) -> (r: bool)
        ensures
            r == self.well_formed(),
    {
        self.min.x.le(self.max.x) && self.min.y.le(self.max.y) && self.min.z.le(self.max.z)
    }
}

impl Bounded for Aabb {
    fn aabb(&self) -> (b: Aabb)
        ensures
            b == *self,
    {
        *self
    }
}

} // verus!
