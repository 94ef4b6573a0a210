use vstd::prelude::*;
use bevy::asset::UntypedHandle;
use crate::animation_comp::AnimationComp;
use crate::animation_time_factor::AnimationTimeScale;
use crate::types::AnimationIndex;

verus! {

/// What an entity needs in order to be animated: the atlas and the frame of
/// it that is shown, what the entity plays, and how fast time passes for it.
#[derive(Debug, PartialEq, Eq)]
pub struct SpriteAnimationBundle {
    pub texture_atlas: UntypedHandle,
    pub index: AnimationIndex,
    pub frames: AnimationComp,
    pub time_scale: AnimationTimeScale,
}

} // verus!
