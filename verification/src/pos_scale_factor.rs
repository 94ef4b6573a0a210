use vstd::prelude::*;
use crate::utils::scaled;
use crate::utils::spec_scaled;
use vstd::std_specs::ops::AddSpecImpl;
use vstd::std_specs::ops::MulSpecImpl;
use vstd::std_specs::ops::SubSpecImpl;

verus! {

/// The fixed-point value that stands for a scale of exactly one.
pub const SCALE_ONE: u64 = 1_000_000;

/// A scale that is never negative, in millionths: `SCALE_ONE` is a scale of one.
/// The default is a scale of one.
#[derive(Debug, Clone, Copy, PartialEq, Eq, PartialOrd, Structural)]
pub struct PosScaleFactor {
    pub millionths: u64,
}

/// Why a number is no positive scale.
#[derive(Debug, Clone, Copy, PartialEq, Eq, Structural)]
pub enum InvalidScaleValue {
    /// The number, in millionths, is below zero.
    Negative(i64),
}

/// The scale nearest to `value` millionths that is not negative.
pub open spec fn spec_clamp_pos(value: int) -> int {
    if value < 0 {
        0
    } else {
        value
    }
}

/// The scale nearest to `value` millionths that a `PosScaleFactor` can hold.
pub open spec fn spec_saturate_pos(value: int) -> int {
    if value < 0 {
        0
    } else if value > u64::MAX {
        u64::MAX as int
    } else {
        value
    }
}

impl Default for PosScaleFactor {
    fn default() -> (scale: Self)
        ensures
            scale.millionths == SCALE_ONE,
    {
        PosScaleFactor { millionths: SCALE_ONE }
    }
}

impl PosScaleFactor {
    /// The sum of two scales, held at the largest scale where it would pass it.
    pub open spec fn spec_sum(self, rhs: Self) -> Self {
        PosScaleFactor { millionths: spec_saturate_pos(self.millionths + rhs.millionths) as u64 }
    }

    /// The difference of two scales, held at zero where it would fall below it.
    pub open spec fn spec_difference(self, rhs: Self) -> Self {
        PosScaleFactor { millionths: spec_saturate_pos(self.millionths - rhs.millionths) as u64 }
    }

    /// The product of two scales, rounded down to a millionth and held at the
    /// largest scale where it would pass it.
    pub open spec fn spec_product(self, rhs: Self) -> Self {
        PosScaleFactor {
            millionths: spec_scaled(
                self.millionths as int,
                rhs.millionths as int,
                SCALE_ONE as int,
            ) as u64,
        }
    }

    /// Returns a scale at zero.
    pub fn zero() -> (scale: Self)
        ensures
            scale.millionths == 0,
    {
        PosScaleFactor { millionths: 0 }
    }

    /// Accepts `value` millionths as a scale, unless it is negative.
    pub fn new(value: i64) -> (result: Result<Self, InvalidScaleValue>)
        ensures
            value >= 0 ==> result == Ok::<Self, InvalidScaleValue>(
                PosScaleFactor { millionths: value as u64 },
            ),
            value < 0 ==> result == Err::<Self, InvalidScaleValue>(
                InvalidScaleValue::Negative(value),
            ),
    {
        if value < 0 {
            Err(InvalidScaleValue::Negative(value))
        } else {
            Ok(PosScaleFactor { millionths: value as u64 })
        }
    }

    /// Accepts `value` millionths as a scale; a negative number is raised to zero.
    /// A positive scale has no upper bound, so this never fails.
    pub fn at_least_zero(value: i64) -> (result: Result<Self, InvalidScaleValue>)
        ensures
            result == Ok::<Self, InvalidScaleValue>(
                PosScaleFactor { millionths: spec_clamp_pos(value as int) as u64 },
            ),
    {
        if value < 0 {
            Ok(PosScaleFactor { millionths: 0 })
        } else {
            Self::new(value)
        }
    }

    /// Turns `value` millionths into a scale; a negative number is raised to zero.
    pub fn clamp(value: i64) -> (scale: Self)
        ensures
            scale.millionths == spec_clamp_pos(value as int),
            scale.millionths >= 0,
    {
        match Self::new(value) {
            Ok(scale) => scale,
            Err(InvalidScaleValue::Negative(_)) => PosScaleFactor { millionths: 0 },
        }
    }

    /// Returns a scale of one.
    pub fn new_as_complete() -> (scale: Self)
        ensures
            scale.millionths == SCALE_ONE,
    {
        PosScaleFactor { millionths: SCALE_ONE }
    }

    /// The scale in millionths.
    pub fn to_value(self) -> (value: u64)
        ensures
            value == self.millionths,
            value >= 0,
    {
        self.millionths
    }
}

impl core::ops::Add for PosScaleFactor {
    type Output = Self;

    fn add(self, rhs: Self) -> (sum: Self) {
        if self.millionths > u64::MAX - rhs.millionths {
            PosScaleFactor { millionths: u64::MAX }
        } else {
            PosScaleFactor { millionths: self.millionths + rhs.millionths }
        }
    }
}

impl AddSpecImpl for PosScaleFactor {
    open spec fn obeys_add_spec() -> bool {
        true
    }

    open spec fn add_req(self, rhs: Self) -> bool {
        true
    }

    open spec fn add_spec(self, rhs: Self) -> Self {
        self.spec_sum(rhs)
    }
}

impl core::ops::Sub for PosScaleFactor {
    type Output = Self;

    fn sub(self, rhs: Self) -> (difference: Self) {
        if self.millionths < rhs.millionths {
            PosScaleFactor { millionths: 0 }
        } else {
            PosScaleFactor { millionths: self.millionths - rhs.millionths }
        }
    }
}

impl SubSpecImpl for PosScaleFactor {
    open spec fn obeys_sub_spec() -> bool {
        true
    }

    open spec fn sub_req(self, rhs: Self) -> bool {
        true
    }

    open spec fn sub_spec(self, rhs: Self) -> Self {
        self.spec_difference(rhs)
    }
}

impl core::ops::Mul for PosScaleFactor {
    type Output = Self;

    fn mul(self, rhs: Self) -> (product: Self) {
        PosScaleFactor { millionths: scaled(self.millionths, rhs.millionths, SCALE_ONE) }
    }
}

impl MulSpecImpl for PosScaleFactor {
    open spec fn obeys_mul_spec() -> bool {
        true
    }

    open spec fn mul_req(self, rhs: Self) -> bool {
        true
    }

    open spec fn mul_spec(self, rhs: Self) -> Self {
        self.spec_product(rhs)
    }
}

impl core::ops::AddAssign for PosScaleFactor {
    fn add_assign(&mut self, rhs: Self)
        ensures
            *final(self) == old(self).spec_sum(rhs),
    {
        *self = *self + rhs;
    }
}

impl core::ops::SubAssign for PosScaleFactor {
    fn sub_assign(&mut self, rhs: Self)
        ensures
            *final(self) == old(self).spec_difference(rhs),
    {
        *self = *self - rhs;
    }
}

impl core::ops::MulAssign for PosScaleFactor {
    fn mul_assign(&mut self, rhs: Self)
        ensures
            *final(self) == old(self).spec_product(rhs),
    {
        *self = *self * rhs;
    }
}

} // verus!
