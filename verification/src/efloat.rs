//! Numbers that carry the interval in which the exact result lies.
use vstd::prelude::*;
use crate::float::Float;

verus! {

/// A computed number `v` with bounds: the number that exact arithmetic would
/// have given lies in `[low, high]`.
#[derive(Clone, Copy, Debug, PartialEq, Eq, Structural)]
pub struct EFloat {
    pub v: Float,
    pub low: Float,
    pub high: Float,
}

impl EFloat {
    /// The bounds enclose the computed number, and none of the three is a
    /// NaN.
    pub open spec fn well_formed(self) -> bool {
        self.low.spec_le(self.v) && self.v.spec_le(self.high)
    }

    /// A number known exactly: both bounds are the number itself.
    pub fn new(v: Float) -> (e: EFloat)
        ensures
            e == (EFloat { v, low: v, high: v }),
            !v.spec_is_nan() ==> e.well_formed(),
    {
        EFloat { v, low: v, high: v }
    }

    /// A number with its bounds, where the bounds enclose it.
    pub fn with_bounds(v: Float, low: Float, high: Float) -> (e: Option<EFloat>)
        ensures
            e == if (EFloat { v, low, high }).well_formed() {
                Some(EFloat { v, low, high })
            } else {
                None
            },
    {
        if low.le(v) && v.le(high) {
            Some(EFloat { v, low, high })
        } else {
            None
        }
    }

    pub fn is_well_formed(&self) -> (r: bool)
        ensures
            r == self.well_formed(),
    {
        self.low.le(self.v) && self.v.le(self.high)
    }

    pub fn value(&self) -> (v: Float)
        ensures
            v == self.v,
    {
        self.v
    }

    pub fn lower_bound(&self) -> (v: Float)
        ensures
            v == self.low,
    {
        self.low
    }

    pub fn upper_bound(&self) -> (v: Float)
        ensures
            v == self.high,
    {
        self.high
    }
}

} // verus!
