//! Single-precision numbers as bit patterns.
//!
//! The renderer's decisions compare numbers, test them for zero or for
//! not-a-number, and flip or clear their sign. All of that is decided by the
//! 32 bits of the IEEE-754 encoding, so a number is held here as those bits
//! and every operation is integer arithmetic with a proved contract.
//! Rounding arithmetic (sums, products, roots) is left to the caller.
use vstd::prelude::*;
use vstd::arithmetic::power2::{pow2, lemma_pow2_pos, lemma_pow2_unfold, lemma_pow2_strictly_increases, lemma2_to64};

verus! {

/// The sign bit of the encoding.
pub const SIGN_BIT: u32 = 0x8000_0000;

/// The encoding of positive infinity; every larger magnitude is not a number.
pub const INFINITY_BITS: u32 = 0x7f80_0000;

/// The encoding of 1.
pub const ONE_BITS: u32 = 0x3f80_0000;

/// The number of fraction patterns under one exponent, 2^23.
pub const FRACTION_SPAN: u32 = 0x80_0000;

/// A single-precision IEEE-754 number, held as its bit pattern.
///
/// `==` on this type is identity of the bits; `equals` is equality of the
/// numbers denoted, under which the two zeros are equal and a NaN equals
/// nothing.
#[derive(Clone, Copy, Debug, PartialEq, Eq, Structural)]
pub struct Float {
    pub bits: u32,
}

impl Float {
    pub open spec fn spec_from_bits(bits: u32) -> Float {
        Float { bits }
    }

    /// Positive zero.
    pub open spec fn spec_zero() -> Float {
        Float { bits: 0 }
    }

    /// The bits without the sign.
    pub open spec fn magnitude(self) -> int {
        (self.bits % SIGN_BIT) as int
    }

    /// Whether the sign bit is set (true of -0 and of some NaNs too).
    pub open spec fn sign_negative(self) -> bool {
        self.bits >= SIGN_BIT
    }

    pub open spec fn spec_is_nan(self) -> bool {
        self.magnitude() > INFINITY_BITS
    }

    pub open spec fn spec_is_finite(self) -> bool {
        self.magnitude() < INFINITY_BITS
    }

    /// The place of the number among all encodable numbers, zero at 0.
    /// Both zeros have rank 0, and the infinities have the outermost ranks.
    pub open spec fn rank(self) -> int {
        if self.sign_negative() {
            -self.magnitude()
        } else {
            self.magnitude()
        }
    }

    /// The exponent field.
    pub open spec fn exponent_field(self) -> int {
        self.magnitude() / (FRACTION_SPAN as int)
    }

    /// The fraction field.
    pub open spec fn fraction_field(self) -> int {
        self.magnitude() % (FRACTION_SPAN as int)
    }

    /// The integer that the fraction field stands for, with the hidden bit of
    /// a normal number.
    pub open spec fn significand(self) -> int {
        if self.exponent_field() == 0 {
            self.fraction_field()
        } else {
            FRACTION_SPAN + self.fraction_field()
        }
    }

    /// The power of two by which the significand is scaled, counted from the
    /// least one.
    pub open spec fn scale(self) -> nat {
        if self.exponent_field() == 0 {
            0
        } else {
            (self.exponent_field() - 1) as nat
        }
    }

    /// The number denoted, in units of 2^-149 (the least positive number), so
    /// that it is an integer. An infinity gets the value one binade beyond
    /// the largest finite number.
    pub open spec fn scaled_value(self) -> int {
        if self.sign_negative() {
            -(self.significand() * pow2(self.scale()))
        } else {
            self.significand() * pow2(self.scale())
        }
    }

    /// `<` between the numbers denoted: false when either is a NaN.
    pub open spec fn spec_lt(self, other: Float) -> bool {
        !self.spec_is_nan() && !other.spec_is_nan() && self.rank() < other.rank()
    }

    /// `<=` between the numbers denoted: false when either is a NaN.
    pub open spec fn spec_le(self, other: Float) -> bool {
        !self.spec_is_nan() && !other.spec_is_nan() && self.rank() <= other.rank()
    }

    /// `>` between the numbers denoted: false when either is a NaN.
    pub open spec fn spec_gt(self, other: Float) -> bool {
        other.spec_lt(self)
    }

    /// `>=` between the numbers denoted: false when either is a NaN.
    pub open spec fn spec_ge(self, other: Float) -> bool {
        other.spec_le(self)
    }

    /// Equality of the numbers denoted: false when either is a NaN, true of
    /// the two zeros.
    pub open spec fn spec_equals(self, other: Float) -> bool {
        !self.spec_is_nan() && !other.spec_is_nan() && self.rank() == other.rank()
    }

    /// Whether the number is +0 or -0.
    pub open spec fn spec_is_zero(self) -> bool {
        self.magnitude() == 0
    }

    /// The same magnitude with the other sign.
    pub open spec fn negated(self) -> Float {
        if self.sign_negative() {
            Float { bits: (self.bits - SIGN_BIT) as u32 }
        } else {
            Float { bits: (self.bits + SIGN_BIT) as u32 }
        }
    }

    /// The same magnitude with the sign cleared.
    pub open spec fn magnitude_only(self) -> Float {
        Float { bits: self.magnitude() as u32 }
    }

    /// The lesser of two numbers, the other one where one is a NaN.
    pub open spec fn spec_min(self, other: Float) -> Float {
        if self.spec_is_nan() {
            other
        } else if other.spec_is_nan() {
            self
        } else if other.rank() < self.rank() {
            other
        } else {
            self
        }
    }

    /// The greater of two numbers, the other one where one is a NaN.
    pub open spec fn spec_max(self, other: Float) -> Float {
        if self.spec_is_nan() {
            other
        } else if other.spec_is_nan() {
            self
        } else if other.rank() > self.rank() {
            other
        } else {
            self
        }
    }

    /// The number moved into `[low, high]`; a NaN stays as it is.
    pub open spec fn spec_clamp(self, low: Float, high: Float) -> Float {
        if self.spec_lt(low) {
            low
        } else if self.spec_gt(high) {
            high
        } else {
            self
        }
    }

    /// The least number above this one: a NaN and positive infinity stay
    /// as they are, and from either zero the step leads to the least
    /// positive number.
    pub open spec fn spec_next_up(self) -> Float {
        if self.spec_is_nan() || self.bits == INFINITY_BITS {
            self
        } else if self.magnitude() == 0 {
            Float { bits: 1 }
        } else if self.sign_negative() {
            Float { bits: (self.bits - 1) as u32 }
        } else {
            Float { bits: (self.bits + 1) as u32 }
        }
    }

    /// The greatest number below this one: a NaN and negative infinity stay
    /// as they are, and from either zero the step leads to the greatest
    /// negative number.
    pub open spec fn spec_next_down(self) -> Float {
        self.negated().spec_next_up().negated()
    }

    pub fn from_bits(bits: u32) -> (r: Float)
        ensures
            r.bits == bits,
    {
        Float { bits }
    }

    pub fn to_bits(self) -> (r: u32)
        ensures
            r == self.bits,
    {
        self.bits
    }

    pub fn zero() -> (r: Float)
        ensures
            r.bits == 0,
    {
        Float { bits: 0 }
    }

    pub fn one() -> (r: Float)
        ensures
            r.bits == ONE_BITS,
    {
        Float { bits: ONE_BITS }
    }

    pub fn infinity() -> (r: Float)
        ensures
            r.bits == INFINITY_BITS,
    {
        Float { bits: INFINITY_BITS }
    }

    fn magnitude_bits(self) -> (m: u32)
        ensures
            m == self.magnitude(),
            m < SIGN_BIT,
    {
        if self.bits >= SIGN_BIT {
            self.bits - SIGN_BIT
        } else {
            self.bits
        }
    }

    fn rank_of(self) -> (k: i64)
        ensures
            k == self.rank(),
    {
        let m: i64 = self.magnitude_bits() as i64;
        if self.bits >= SIGN_BIT {
            -m
        } else {
            m
        }
    }

    pub fn is_nan(self) -> (r: bool)
        ensures
            r == self.spec_is_nan(),
    {
        self.magnitude_bits() > INFINITY_BITS
    }

    pub fn is_finite(self) -> (r: bool)
        ensures
            r == self.spec_is_finite(),
    {
        self.magnitude_bits() < INFINITY_BITS
    }

    pub fn is_zero(self) -> (r: bool)
        ensures
            r == self.spec_is_zero(),
            r == self.spec_equals(Float { bits: 0 }),
    {
        self.magnitude_bits() == 0
    }

    pub fn is_sign_negative(self) -> (r: bool)
        ensures
            r == self.sign_negative(),
    {
        self.bits >= SIGN_BIT
    }

    pub fn lt(self, other: Float) -> (r: bool)
        ensures
            r == self.spec_lt(other),
    {
        !self.is_nan() && !other.is_nan() && self.rank_of() < other.rank_of()
    }

    pub fn le(self, other: Float) -> (r: bool)
        ensures
            r == self.spec_le(other),
    {
        !self.is_nan() && !other.is_nan() && self.rank_of() <= other.rank_of()
    }

    pub fn gt(self, other: Float) -> (r: bool)
        ensures
            r == self.spec_gt(other),
    {
        other.lt(self)
    }

    pub fn ge(self, other: Float) -> (r: bool)
        ensures
            r == self.spec_ge(other),
    {
        other.le(self)
    }

    pub fn equals(self, other: Float) -> (r: bool)
        ensures
            r == self.spec_equals(other),
    {
        !self.is_nan() && !other.is_nan() && self.rank_of() == other.rank_of()
    }

    pub fn neg(self) -> (r: Float)
        ensures
            r == self.negated(),
            r.magnitude() == self.magnitude(),
            r.sign_negative() != self.sign_negative(),
    {
        if self.bits >= SIGN_BIT {
            Float { bits: self.bits - SIGN_BIT }
        } else {
            Float { bits: self.bits + SIGN_BIT }
        }
    }

    pub fn abs(self) -> (r: Float)
        ensures
            r == self.magnitude_only(),
            r.magnitude() == self.magnitude(),
            !r.sign_negative(),
    {
        Float { bits: self.magnitude_bits() }
    }

    /// The least number above this one. Rounding a bound upwards by this
    /// step keeps it a bound.
    pub fn next_up(self) -> (r: Float)
        ensures
            r == self.spec_next_up(),
            !self.spec_is_nan() && self.bits != INFINITY_BITS ==> !r.spec_is_nan() && r.rank()
                == self.rank() + 1,
    {
        let m = self.magnitude_bits();
        if m > INFINITY_BITS || self.bits == INFINITY_BITS {
            self
        } else if m == 0 {
            Float { bits: 1 }
        } else if self.bits >= SIGN_BIT {
            Float { bits: self.bits - 1 }
        } else {
            Float { bits: self.bits + 1 }
        }
    }

    /// The greatest number below this one. Rounding a bound downwards by
    /// this step keeps it a bound.
    pub fn next_down(self) -> (r: Float)
        ensures
            r == self.spec_next_down(),
            !self.spec_is_nan() && self.bits != SIGN_BIT + INFINITY_BITS ==> !r.spec_is_nan()
                && r.rank() == self.rank() - 1,
    {
        self.neg().next_up().neg()
    }

    pub fn min(self, other: Float) -> (r: Float)
        ensures
            r == self.spec_min(other),
    {
        if self.is_nan() {
            other
        } else if other.is_nan() {
            self
        } else if other.rank_of() < self.rank_of() {
            other
        } else {
            self
        }
    }

    pub fn max(self, other: Float) -> (r: Float)
        ensures
            r == self.spec_max(other),
    {
        if self.is_nan() {
            other
        } else if other.is_nan() {
            self
        } else if other.rank_of() > self.rank_of() {
            other
        } else {
            self
        }
    }

    /// Moves the number into `[low, high]`. The bounds must be ordered, which
    /// also says that neither is a NaN.
    pub fn clamp(self, low: Float, high: Float) -> (r: Float)
        requires
            low.spec_le(high),
        ensures
            r == self.spec_clamp(low, high),
            !self.spec_is_nan() ==> low.spec_le(r) && r.spec_le(high),
            self.spec_is_nan() ==> r == self,
    {
        if self.lt(low) {
            low
        } else if self.gt(high) {
            high
        } else {
            self
        }
    }
}

/// The absolute value denoted by a magnitude, in units of 2^-149.
pub open spec fn magnitude_value(m: int) -> int {
    let e = m / (FRACTION_SPAN as int);
    let f = m % (FRACTION_SPAN as int);
    if e == 0 {
        f * pow2(0)
    } else {
        (FRACTION_SPAN + f) * pow2((e - 1) as nat)
    }
}

proof fn lemma_scale_product(s1: int, s2: int, p: int)
    requires
        0 <= s1 < s2,
        p > 0,
    ensures
        s1 * p < s2 * p,
{
    assert(s1 * p < s2 * p) by (nonlinear_arith)
        requires
            0 <= s1 < s2,
            p > 0,
    ;
}

proof fn lemma_scale_power(s: int, p1: int, p2: int)
    requires
        0 <= s,
        0 <= p1 <= p2,
    ensures
        s * p1 <= s * p2,
{
    assert(s * p1 <= s * p2) by (nonlinear_arith)
        requires
            0 <= s,
            0 <= p1 <= p2,
    ;
}

/// A larger magnitude denotes a larger absolute value.
proof fn lemma_magnitude_value_increases(m1: int, m2: int)
    requires
        0 <= m1 < m2,
    ensures
        0 <= magnitude_value(m1) < magnitude_value(m2),
{
    let span = FRACTION_SPAN as int;
    let e1 = m1 / span;
    let f1 = m1 % span;
    let e2 = m2 / span;
    let f2 = m2 % span;
    assert(m1 == e1 * span + f1 && m2 == e2 * span + f2);
    assert(0 <= e1 <= e2);
    lemma2_to64();
    if e1 == e2 {
        if e1 == 0 {
        } else {
            lemma_pow2_pos((e1 - 1) as nat);
            lemma_scale_product(span + f1, span + f2, pow2((e1 - 1) as nat) as int);
        }
    } else if e1 == 0 {
        lemma_pow2_pos((e2 - 1) as nat);
        lemma_scale_power(span + f2, 1, pow2((e2 - 1) as nat) as int);
    } else {
        let p1 = pow2((e1 - 1) as nat) as int;
        let p2 = pow2((e2 - 1) as nat) as int;
        lemma_pow2_pos((e1 - 1) as nat);
        lemma_pow2_unfold(e1 as nat);
        if e1 < e2 - 1 {
            lemma_pow2_strictly_increases(e1 as nat, (e2 - 1) as nat);
        }
        assert(2 * p1 <= p2);
        lemma_scale_product(span + f1, 2 * span, p1);
        assert((2 * span) * p1 == span * (2 * p1)) by (nonlinear_arith);
        lemma_scale_power(span, 2 * p1, p2);
        assert(span * p2 <= (span + f2) * p2) by (nonlinear_arith)
            requires
                0 <= f2,
                p2 >= 0,
        ;
    }
}

/// Comparing two numbers by rank is comparing the numbers they denote: the
/// rank order and the order of the values in units of 2^-149 agree on every
/// pair that holds no NaN, and equal ranks are equal values.
pub proof fn lemma_rank_orders_values(a: Float, b: Float)
    requires
        !a.spec_is_nan(),
        !b.spec_is_nan(),
    ensures
        a.rank() < b.rank() <==> a.scaled_value() < b.scaled_value(),
        a.rank() == b.rank() <==> a.scaled_value() == b.scaled_value(),
        a.spec_lt(b) <==> a.scaled_value() < b.scaled_value(),
        a.spec_equals(b) <==> a.scaled_value() == b.scaled_value(),
{
    let ma = a.magnitude();
    let mb = b.magnitude();
    lemma2_to64();
    assert(a.scaled_value() == if a.sign_negative() { -magnitude_value(ma) } else { magnitude_value(ma) });
    assert(b.scaled_value() == if b.sign_negative() { -magnitude_value(mb) } else { magnitude_value(mb) });
    assert(magnitude_value(0) == 0);
    if ma < mb {
        lemma_magnitude_value_increases(ma, mb);
    } else if mb < ma {
        lemma_magnitude_value_increases(mb, ma);
    }
    if 0 < ma {
        lemma_magnitude_value_increases(0, ma);
    }
    if 0 < mb {
        lemma_magnitude_value_increases(0, mb);
    }
}

} // verus!
