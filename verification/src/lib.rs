pub mod animation_altlas;
pub mod animation_collection;
pub mod animation_comp;
pub mod animation_ended;
pub mod animation_error;
pub mod animation_frames;
pub mod animation_key;
pub mod animation_precent_progress;
pub mod animation_respo_resource;
pub mod animation_time_factor;
pub mod listen_animation_end;
pub mod pos_scale_factor;
pub mod precent;
pub mod prelude;
pub mod save_load;
pub mod sprite_animation_bundle;
pub mod static_text_repos;
pub mod systems;
pub mod text_like;
pub mod types;
pub mod utils;

pub use animation_ended::AnimationEnded;
pub use animation_precent_progress::AnimationPrecentProgress;
pub use animation_time_factor::AnimationTimeScale;
pub use listen_animation_end::ListenAnimationEnd;
pub use pos_scale_factor::InvalidScaleValue as InvalidPosScaleValue;
pub use pos_scale_factor::PosScaleFactor;
pub use precent::InvalidScaleValue;
pub use precent::PercentScaleFactor;
