use vstd::prelude::*;
use vstd::std_specs::ops::AddSpecImpl;
use vstd::std_specs::ops::MulSpecImpl;
use vstd::std_specs::ops::SubSpecImpl;
use crate::pos_scale_factor::SCALE_ONE;
use crate::utils::scaled;

verus! {

/// A share between nothing and all of something, in millionths: `SCALE_ONE`
/// is the whole. The default is zero.
#[derive(Debug, Clone, Copy, PartialEq, Eq, PartialOrd, Structural)]
pub struct PercentScaleFactor {
    millionths: u64,
}

/// Why a number is no share between zero and one.
#[derive(Debug, Clone, Copy, PartialEq, Eq, Structural)]
pub enum InvalidScaleValue {
    /// The number, in millionths, is below zero.
    Negative(i64),
    /// The number, in millionths, is above one whole.
    OverOne(i64),
}

/// The share nearest to `value` millionths, in millionths.
pub open spec fn spec_clamp_percent(value: int) -> int {
    if value < 0 {
        0
    } else if value > SCALE_ONE {
        SCALE_ONE as int
    } else {
        value
    }
}

impl Default for PercentScaleFactor {
    fn default() -> (scale: Self)
        ensures
            scale == PercentScaleFactor::from_millionths(0),
    {
        PercentScaleFactor { millionths: 0 }
    }
}

impl PercentScaleFactor {
    #[verifier::type_invariant]
    spec fn in_range(self) -> bool {
        self.millionths <= SCALE_ONE
    }

    /// The share in millionths.
    pub closed spec fn spec_value(self) -> int {
        self.millionths as int
    }

    /// The share nearest to `value` millionths.
    pub closed spec fn from_millionths(value: int) -> Self {
        PercentScaleFactor { millionths: spec_clamp_percent(value) as u64 }
    }

    /// A share made from a number holds that number, brought into range.
    pub broadcast proof fn lemma_from_millionths(value: int)
        ensures
            #[trigger] Self::from_millionths(value).spec_value() == spec_clamp_percent(value),
    {
    }

    /// Whatever two numbers two shares are made from, their difference is a
    /// share: it is neither below nothing nor above the whole, and it is
    /// nothing where the second is the larger.
    pub proof fn lemma_difference_in_range(x: int, y: int)
        ensures
            0 <= Self::from_millionths(x).spec_difference(Self::from_millionths(y)).spec_value()
                <= SCALE_ONE,
            Self::from_millionths(x).spec_difference(Self::from_millionths(y)).spec_value()
                == spec_clamp_percent(spec_clamp_percent(x) - spec_clamp_percent(y)),
    {
    }

    /// Whatever two numbers two shares are made from, their sum and their
    /// product are shares.
    pub proof fn lemma_sum_and_product_in_range(x: int, y: int)
        ensures
            0 <= Self::from_millionths(x).spec_sum(Self::from_millionths(y)).spec_value()
                <= SCALE_ONE,
            0 <= Self::from_millionths(x).spec_product(Self::from_millionths(y)).spec_value()
                <= SCALE_ONE,
    {
    }

    /// The sum of two shares, held at one whole.
    pub open spec fn spec_sum(self, rhs: Self) -> Self {
        Self::from_millionths(self.spec_value() + rhs.spec_value())
    }

    /// The difference of two shares, held at zero.
    pub open spec fn spec_difference(self, rhs: Self) -> Self {
        Self::from_millionths(self.spec_value() - rhs.spec_value())
    }

    /// The product of two shares, rounded down to a millionth.
    pub open spec fn spec_product(self, rhs: Self) -> Self {
        Self::from_millionths(self.spec_value() * rhs.spec_value() / SCALE_ONE as int)
    }

    /// Returns a share of nothing.
    pub fn zero() -> (scale: Self)
        ensures
            scale == Self::from_millionths(0),
            scale.spec_value() == 0,
    {
        PercentScaleFactor { millionths: 0 }
    }

    /// Accepts `value` millionths as a share if it lies between zero and one whole.
    pub fn new(value: i64) -> (result: Result<Self, InvalidScaleValue>)
        ensures
            0 <= value <= SCALE_ONE ==> result == Ok::<Self, InvalidScaleValue>(
                Self::from_millionths(value as int),
            ),
            value < 0 ==> result == Err::<Self, InvalidScaleValue>(
                InvalidScaleValue::Negative(value),
            ),
            value > SCALE_ONE ==> result == Err::<Self, InvalidScaleValue>(
                InvalidScaleValue::OverOne(value),
            ),
            result matches Ok(scale) ==> scale.spec_value() == value,
    {
        if value < 0 {
            Err(InvalidScaleValue::Negative(value))
        } else if value > SCALE_ONE as i64 {
            Err(InvalidScaleValue::OverOne(value))
        } else {
            Ok(PercentScaleFactor { millionths: value as u64 })
        }
    }

    /// Returns true if the share is the whole.
    pub fn is_complete(&self) -> (complete: bool)
        ensures
            complete == (self.spec_value() >= SCALE_ONE),
            complete == (self.spec_value() == SCALE_ONE),
    {
        proof {
            use_type_invariant(self);
        }
        self.millionths >= SCALE_ONE
    }

    /// Accepts `value` millionths as a share; a negative number is raised to
    /// zero, and one above one whole is refused.
    pub fn at_least_zero(value: i64) -> (result: Result<Self, InvalidScaleValue>)
        ensures
            value <= SCALE_ONE ==> result == Ok::<Self, InvalidScaleValue>(
                Self::from_millionths(value as int),
            ),
            value > SCALE_ONE ==> result == Err::<Self, InvalidScaleValue>(
                InvalidScaleValue::OverOne(value),
            ),
            result matches Ok(scale) ==> scale.spec_value() == spec_clamp_percent(value as int),
    {
        if value < 0 {
            Ok(PercentScaleFactor { millionths: 0 })
        } else {
            Self::new(value)
        }
    }

    /// Turns `value` millionths into the nearest share: zero for a negative
    /// number, one whole for a number above it.
    pub fn clamp(value: i64) -> (scale: Self)
        ensures
            scale == Self::from_millionths(value as int),
            scale.spec_value() == spec_clamp_percent(value as int),
            0 <= scale.spec_value() <= SCALE_ONE,
    {
        match Self::new(value) {
            Ok(scale) => scale,
            Err(InvalidScaleValue::Negative(_)) => PercentScaleFactor { millionths: 0 },
            Err(InvalidScaleValue::OverOne(_)) => PercentScaleFactor { millionths: SCALE_ONE },
        }
    }

    /// Turns a number of millionths that is not negative into the nearest share.
    pub fn clamp_unsigned(value: u64) -> (scale: Self)
        ensures
            scale == Self::from_millionths(value as int),
            scale.spec_value() == spec_clamp_percent(value as int),
    {
        if value > SCALE_ONE {
            PercentScaleFactor { millionths: SCALE_ONE }
        } else {
            PercentScaleFactor { millionths: value }
        }
    }

    /// Returns the whole.
    pub fn new_as_complete() -> (scale: Self)
        ensures
            scale == Self::from_millionths(SCALE_ONE as int),
            scale.spec_value() == SCALE_ONE,
    {
        PercentScaleFactor { millionths: SCALE_ONE }
    }

    /// The share in millionths.
    pub fn to_value(self) -> (value: u64)
        ensures
            value == self.spec_value(),
            0 <= value <= SCALE_ONE,
            self == Self::from_millionths(value as int),
    {
        proof {
            use_type_invariant(self);
        }
        self.millionths
    }
}

impl core::ops::Add for PercentScaleFactor {
    type Output = Self;

    fn add(self, rhs: Self) -> (sum: Self) {
        proof {
            use_type_invariant(self);
            use_type_invariant(rhs);
        }
        Self::clamp_unsigned(self.millionths + rhs.millionths)
    }
}

impl AddSpecImpl for PercentScaleFactor {
    open spec fn obeys_add_spec() -> bool {
        true
    }

    open spec fn add_req(self, rhs: Self) -> bool {
        true
    }

    open spec fn add_spec(self, rhs: Self) -> Self {
        self.spec_sum(rhs)
    }
}

impl core::ops::Sub for PercentScaleFactor {
    type Output = Self;

    fn sub(self, rhs: Self) -> (difference: Self) {
        proof {
            use_type_invariant(self);
            use_type_invariant(rhs);
        }
        if self.millionths < rhs.millionths {
            PercentScaleFactor { millionths: 0 }
        } else {
            PercentScaleFactor { millionths: self.millionths - rhs.millionths }
        }
    }
}

impl SubSpecImpl for PercentScaleFactor {
    open spec fn obeys_sub_spec() -> bool {
        true
    }

    open spec fn sub_req(self, rhs: Self) -> bool {
        true
    }

    open spec fn sub_spec(self, rhs: Self) -> Self {
        self.spec_difference(rhs)
    }
}

impl core::ops::Mul for PercentScaleFactor {
    type Output = Self;

    fn mul(self, rhs: Self) -> (product: Self) {
        proof {
            use_type_invariant(self);
            use_type_invariant(rhs);
        }
        Self::clamp_unsigned(scaled(self.millionths, rhs.millionths, SCALE_ONE))
    }
}

impl MulSpecImpl for PercentScaleFactor {
    open spec fn obeys_mul_spec() -> bool {
        true
    }

    open spec fn mul_req(self, rhs: Self) -> bool {
        true
    }

    open spec fn mul_spec(self, rhs: Self) -> Self {
        self.spec_product(rhs)
    }
}

impl core::ops::AddAssign for PercentScaleFactor {
    fn add_assign(&mut self, rhs: Self)
        ensures
            *final(self) == old(self).spec_sum(rhs),
    {
        *self = *self + rhs;
    }
}

impl core::ops::SubAssign for PercentScaleFactor {
    fn sub_assign(&mut self, rhs: Self)
        ensures
            *final(self) == old(self).spec_difference(rhs),
    {
        *self = *self - rhs;
    }
}

impl core::ops::MulAssign for PercentScaleFactor {
    fn mul_assign(&mut self, rhs: Self)
        ensures
            *final(self) == old(self).spec_product(rhs),
    {
        *self = *self * rhs;
    }
}

} // verus!
