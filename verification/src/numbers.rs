//! Bounded unsigned integers.

use vstd::prelude::*;

verus! {

/// The value that an out-of-range result is pulled back to: the nearest bound.
pub open spec fn clamp_to(raw: int, lower: u32, upper: u32) -> u32 {
    if raw < lower {
        lower
    } else if raw > upper {
        upper
    } else {
        raw as u32
    }
}

/// An unsigned integer that stays within `LOWER..=UPPER`.
///
/// An arithmetic result that would leave the range is pulled back to the nearest bound.
#[derive(Clone, Copy, PartialEq, Eq, PartialOrd, Ord, Debug)]
pub struct LInt<const LOWER: u32, const UPPER: u32>(u32);

/// The largest value an `f32` holds without losing precision: its mantissa has 24 bits.
pub const F32_MAX: u32 = 16777216;

/// An integer that converts to `f32` without losing precision.
pub type Uf32 = LInt<0, 16777216>;

impl<const LOWER: u32, const UPPER: u32> View for LInt<LOWER, UPPER> {
    type V = u32;

    closed spec fn view(&self) -> u32 {
        self.0
    }
}

impl<const LOWER: u32, const UPPER: u32> LInt<LOWER, UPPER> {
    /// The range is not empty and the value lies within it.
    pub open spec fn wf(self) -> bool {
        &&& LOWER < UPPER
        &&& LOWER <= self@ <= UPPER
    }

    /// A bounded integer holding `value`, which must lie within the bounds.
    pub fn new(value: u32) -> (r: Self)
        requires
            LOWER < UPPER,
            LOWER <= value <= UPPER,
        ensures
            r@ == value,
            r.wf(),
    {
        LInt(value)
    }

    /// The upper bound.
    pub fn max() -> (r: Self)
        requires
            LOWER < UPPER,
        ensures
            r@ == UPPER,
            r.wf(),
    {
        LInt(UPPER)
    }

    /// The lower bound.
    pub fn min() -> (r: Self)
        requires
            LOWER < UPPER,
        ensures
            r@ == LOWER,
            r.wf(),
    {
        LInt(LOWER)
    }

    fn clamped(raw: u32) -> (r: Self)
        requires
            LOWER < UPPER,
        ensures
            r@ == clamp_to(raw as int, LOWER, UPPER),
            r.wf(),
    {
        if raw < LOWER {
            LInt(LOWER)
        } else if raw > UPPER {
            LInt(UPPER)
        } else {
            LInt(raw)
        }
    }

    /// The sum, pulled back into the range.
    pub fn add(self, rhs: Self) -> (r: Self)
        requires
            self.wf(),
            rhs.wf(),
            self@ + rhs@ <= u32::MAX,
        ensures
            r@ == clamp_to(self@ + rhs@, LOWER, UPPER),
            r.wf(),
    {
        Self::clamped(self.0 + rhs.0)
    }

    /// The product, pulled back into the range.
    pub fn mul(self, rhs: Self) -> (r: Self)
        requires
            self.wf(),
            rhs.wf(),
            self@ * rhs@ <= u32::MAX,
        ensures
            r@ == clamp_to(self@ * rhs@, LOWER, UPPER),
            r.wf(),
    {
        Self::clamped(self.0 * rhs.0)
    }

    /// The quotient, rounded down and pulled back into the range.
    pub fn div(self, rhs: Self) -> (r: Self)
        requires
            self.wf(),
            rhs.wf(),
            rhs@ != 0,
        ensures
            r@ == clamp_to((self@ / rhs@) as int, LOWER, UPPER),
            r.wf(),
    {
        Self::clamped(self.0 / rhs.0)
    }

    /// The difference, pulled back into the range.
    pub fn sub(self, rhs: Self) -> (r: Self)
        requires
            self.wf(),
            rhs.wf(),
            rhs@ <= self@,
        ensures
            r@ == clamp_to(self@ - rhs@, LOWER, UPPER),
            r.wf(),
    {
        Self::clamped(self.0 - rhs.0)
    }

    /// The remainder, pulled back into the range.
    pub fn rem(self, rhs: Self) -> (r: Self)
        requires
            self.wf(),
            rhs.wf(),
            rhs@ != 0,
        ensures
            r@ == clamp_to((self@ % rhs@) as int, LOWER, UPPER),
            r.wf(),
    {
        Self::clamped(self.0 % rhs.0)
    }

    /// The larger of the two values.
    pub fn max_of(self, rhs: Self) -> (r: Self)
        ensures
            r@ == if self@ >= rhs@ { self@ } else { rhs@ },
            self.wf() && rhs.wf() ==> r.wf(),
    {
        if self.0 >= rhs.0 {
            self
        } else {
            rhs
        }
    }

    /// The value.
    pub fn into_u32(self) -> (r: u32)
        ensures
            r == self@,
    {
        self.0
    }

    /// The value, widened.
    pub fn into_u64(self) -> (r: u64)
        ensures
            r == self@,
    {
        self.0 as u64
    }
}

impl<const LOWER: u32, const UPPER: u32> Default for LInt<LOWER, UPPER> {
    /// The lower bound.
    fn default() -> (r: Self)
        ensures
            r@ == LOWER,
    {
        LInt(LOWER)
    }
}

/// Every operation on bounded integers keeps its result within the bounds.
pub proof fn lemma_clamp_in_bounds(raw: int, lower: u32, upper: u32)
    requires
        lower < upper,
    ensures
        lower <= clamp_to(raw, lower, upper) <= upper,
        lower <= raw <= upper ==> clamp_to(raw, lower, upper) == raw,
{
}

} // verus!
