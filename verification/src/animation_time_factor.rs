use vstd::prelude::*;
use crate::pos_scale_factor::PosScaleFactor;
use crate::pos_scale_factor::SCALE_ONE;
use crate::types::AnimationDuration;
use crate::utils::scaled;
use crate::utils::spec_scaled;

verus! {

/// How fast time passes for one entity: each tick's time is multiplied by
/// this scale before the entity's timer sees it. The default is a scale of
/// one.
#[derive(Debug, Clone, Copy, PartialEq, Eq, Structural)]
pub struct AnimationTimeScale(pub PosScaleFactor);

impl Default for AnimationTimeScale {
    fn default() -> (scale: Self)
        ensures
            scale.0.millionths == SCALE_ONE,
    {
        AnimationTimeScale(PosScaleFactor::new_as_complete())
    }
}

impl AnimationTimeScale {
    /// `duration` multiplied by the scale, rounded down to a nanosecond and
    /// held at the longest span where it would pass it.
    pub open spec fn spec_scale_duration(&self, duration: AnimationDuration) -> AnimationDuration {
        AnimationDuration {
            nanos: spec_scaled(
                duration.nanos as int,
                self.0.millionths as int,
                SCALE_ONE as int,
            ) as u64,
        }
    }

    /// The time that passes for the entity while `duration` passes.
    pub fn scale_duration(&self, duration: AnimationDuration) -> (scaled_time: AnimationDuration)
        ensures
            scaled_time == self.spec_scale_duration(duration),
    {
        AnimationDuration::from_nanos(scaled(duration.as_nanos(), self.0.to_value(), SCALE_ONE))
    }
}

} // verus!
