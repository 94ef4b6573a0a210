pub use crate::animation_altlas::AnimationAltlas;
pub use crate::animation_altlas::AnimationAltlasMeta;
pub use crate::animation_collection::AnimationCollectionBuilder;
pub use crate::animation_collection::AnimationSeqToBuild;
pub use crate::animation_collection::AnimationSequence;
pub use crate::animation_comp::AnimationComp;
pub use crate::animation_ended::AnimationEnded;
pub use crate::animation_respo_resource::AllAnimationResource;
pub use crate::animation_respo_resource::AnimationRepository;
pub use crate::animation_time_factor::AnimationTimeScale;
pub use crate::listen_animation_end::ListenAnimationEnd;
pub use crate::pos_scale_factor::PosScaleFactor;
pub use crate::precent::InvalidScaleValue;
pub use crate::precent::PercentScaleFactor;
pub use crate::types::AnimationDuration;
pub use crate::types::AnimationFrameResult;
pub use crate::types::AnimationIndex;
pub use crate::types::AnimationResult;
pub use crate::types::KeyLookUpResult;
