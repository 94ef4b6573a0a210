use vstd::prelude::*;
use crate::precent::PercentScaleFactor;

verus! {

/// How far an entity is through the state it plays. Left alone it is a
/// readout that every tick brings up to date; marked `manual` it is an input,
/// and the entity shows the frame that lies that far through the state.
#[derive(Debug, Clone, Copy, PartialEq, Eq, PartialOrd, Structural)]
pub struct AnimationPrecentProgress {
    pub progress: PercentScaleFactor,
    pub manual: bool,
}

impl Default for AnimationPrecentProgress {
    fn default() -> (readout: Self)
        ensures
            readout == (AnimationPrecentProgress {
                progress: PercentScaleFactor::from_millionths(0),
                manual: false,
            }),
    {
        Self { progress: PercentScaleFactor::zero(), manual: false }
    }
}

impl AnimationPrecentProgress {
    pub fn value(&self) -> (progress: PercentScaleFactor)
        ensures
            progress == self.progress,
    {
        self.progress
    }
}

} // verus!
