//! Radiance as three colour components.
use vstd::prelude::*;
use crate::float::Float;

verus! {

/// An amount of light in red, green and blue.
#[derive(Clone, Copy, Debug, PartialEq, Eq, Structural)]
pub struct Spectrum {
    pub r: Float,
    pub g: Float,
    pub b: Float,
}

impl Spectrum {
    /// No light at all: every component is a zero.
    pub open spec fn spec_is_black(self) -> bool {
        self.r.spec_is_zero() && self.g.spec_is_zero() && self.b.spec_is_zero()
    }

    /// Some component is not a number.
    pub open spec fn spec_has_nans(self) -> bool {
        self.r.spec_is_nan() || self.g.spec_is_nan() || self.b.spec_is_nan()
    }

    pub open spec fn spec_black() -> Spectrum {
        Spectrum { r: Float { bits: 0 }, g: Float { bits: 0 }, b: Float { bits: 0 } }
    }

    /// The same amount in every component.
    pub fn uniform(v: Float) -> (s: Spectrum)
        ensures
            s == (Spectrum { r: v, g: v, b: v }),
    {
        Spectrum { r: v, g: v, b: v }
    }

    pub fn black() -> (s: Spectrum)
        ensures
            s == Spectrum::spec_black(),
            s.spec_is_black(),
            !s.spec_has_nans(),
    {
        Spectrum { r: Float::zero(), g: Float::zero(), b: Float::zero() }
    }

    pub fn is_black(&self) -> (r: bool)
        ensures
            r == self.spec_is_black(),
    {
        self.r.is_zero() && self.g.is_zero() && self.b.is_zero()
    }

    pub fn has_nans(&self) -> (r: bool)
        ensures
            r == self.spec_has_nans(),
    {
        self.r.is_nan() || self.g.is_nan() || self.b.is_nan()
    }
}

} // verus!
