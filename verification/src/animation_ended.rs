use vstd::prelude::*;
use bevy::ecs::entity::Entity;
use crate::pos_scale_factor::SCALE_ONE;
use crate::precent::PercentScaleFactor;

verus! {

/// bevy's name for an entity, carried through unread.
#[verifier::external_type_specification]
#[verifier::external_body]
pub struct ExEntity(Entity);

/// Report that an entity has left a state: at its end, where `progress` is
/// the whole, or before it, for another state.
#[derive(Debug, PartialEq, Eq)]
pub struct AnimationEnded {
    pub who: Entity,
    pub progress: PercentScaleFactor,
    pub state: String,
}

impl AnimationEnded {
    /// The report that `who` has played `state` to its end.
    pub fn new_complete(who: Entity, state: String) -> (ended: Self)
        ensures
            ended == (AnimationEnded {
                who,
                progress: PercentScaleFactor::from_millionths(SCALE_ONE as int),
                state,
            }),
    {
        Self { who, progress: PercentScaleFactor::new_as_complete(), state }
    }

    /// Whether the state was played to its end.
    pub fn was_completed(&self) -> (completed: bool)
        ensures
            completed == (self.progress.spec_value() == SCALE_ONE),
    {
        self.progress.is_complete()
    }

    /// How far through the state the entity was, in millionths.
    pub fn progress(&self) -> (progress: u64)
        ensures
            progress == self.progress.spec_value(),
            progress <= SCALE_ONE,
    {
        self.progress.to_value()
    }
}

} // verus!
