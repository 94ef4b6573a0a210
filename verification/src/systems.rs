use vstd::prelude::*;
use bevy::ecs::entity::Entity;
use crate::animation_comp::get_animation_seq;
use crate::animation_comp::new_reapting_time;
use crate::animation_comp::spec_frames_of;
use crate::animation_comp::spec_lookup_failure;
use crate::animation_comp::AnimationComp;
use crate::animation_comp::AnimationTimer;
use crate::animation_ended::AnimationEnded;
use crate::animation_frames::AnimationFrames;
use crate::animation_precent_progress::AnimationPrecentProgress;
use crate::animation_respo_resource::AllAnimationResource;
use crate::animation_time_factor::AnimationTimeScale;
use crate::pos_scale_factor::SCALE_ONE;
use crate::precent::PercentScaleFactor;
use crate::types::AnimationDuration;
use crate::types::AnimationIndex;
use crate::types::KeyLookUpResult;
use crate::utils::get_progress_of_animation;
use crate::utils::progress_in;
use crate::utils::spec_progress;

verus! {

/// Everything of one entity that the passes of a tick read and write.
#[derive(Debug, PartialEq, Eq)]
pub struct AnimatedSprite {
    /// The entity, as its reports name it.
    pub who: Entity,
    /// What the entity plays.
    pub animator: AnimationComp,
    /// Index of the frame that is shown.
    pub index: AnimationIndex,
    /// How fast time passes for the entity.
    pub time_scale: AnimationTimeScale,
    /// The progress readout, where the entity has one.
    pub progress: Option<AnimationPrecentProgress>,
    /// Whether the ends of the entity's states are reported.
    pub listen_end: bool,
}

/// The timer that is started for each frame of `frames`.
pub open spec fn spec_frame_timer(frames: AnimationFrames) -> AnimationTimer {
    AnimationTimer {
        duration: AnimationDuration { nanos: frames.spec_time_per_frame() as u64 },
        elapsed: AnimationDuration { nanos: 0 },
    }
}

/// The report that `who` has played `state` to its end.
pub open spec fn spec_completed(who: Entity, state: String) -> AnimationEnded {
    AnimationEnded { who, progress: PercentScaleFactor::from_millionths(SCALE_ONE as int), state }
}

/// The frame that follows `index` in `frames`: the next one, and the first
/// one after the last.
pub open spec fn spec_next_index(frames: AnimationFrames, index: AnimationIndex) -> AnimationIndex {
    if index >= frames.spec_end() {
        frames.spec_start() as usize
    } else {
        (index + 1) as usize
    }
}

/// What the passing of `delta` does to an entity that plays `frames` and
/// shows the frame `index`: the entity's state and shown frame afterwards,
/// and the report that is due, if any.
///
/// Nothing happens to an entity that is held on the last frame of a state
/// that does not repeat, nor to one whose state is a single frame. Otherwise
/// the time, scaled for the entity, goes onto the timer of the shown frame.
/// Where the timer goes off on the last frame, the end of the state is
/// reported if reports are asked for; a state that does not repeat is then
/// held on that frame. In every other case where the timer goes off the next
/// frame is shown, the first one after the last, with a fresh timer.
pub open spec fn spec_update_over_time(
    who: Entity,
    animator: AnimationComp,
    index: AnimationIndex,
    delta: AnimationDuration,
    frames: AnimationFrames,
    time_scale: AnimationTimeScale,
    listen_end: bool,
) -> (AnimationComp, AnimationIndex, Option<AnimationEnded>) {
    let scaled_time = time_scale.spec_scale_duration(delta);
    let ticked = animator.duration_for_animation.spec_ticked(scaled_time);
    let last_frame_has_ended = index == frames.spec_end();
    let ended = if listen_end && last_frame_has_ended {
        Some(spec_completed(who, animator.current_state))
    } else {
        None
    };
    if animator.has_reached_end_without_repeat || frames.spec_frame_gap() <= 0 {
        (animator, index, None)
    } else if !animator.duration_for_animation.spec_fires(scaled_time) {
        (AnimationComp { duration_for_animation: ticked, ..animator }, index, None)
    } else if last_frame_has_ended && !frames.spec_is_infinite() {
        (
            AnimationComp {
                duration_for_animation: ticked,
                has_reached_end_without_repeat: true,
                ..animator
            },
            index,
            ended,
        )
    } else {
        (
            AnimationComp { duration_for_animation: spec_frame_timer(frames), ..animator },
            spec_next_index(frames, index),
            ended,
        )
    }
}

/// Lets `delta` pass for one entity that plays `current_animation`: advances
/// the entity's timer and, where it goes off, the shown frame. Returns the
/// report that the entity's state has ended, where one is due.
pub fn update_over_time(
    who: Entity,
    animator: &mut AnimationComp,
    current_index: &mut AnimationIndex,
    delta: AnimationDuration,
    current_animation: &AnimationFrames,
    time_scale: &AnimationTimeScale,
    listen_end: bool,
) -> (ended: Option<AnimationEnded>)
    ensures
        (*final(animator), *final(current_index), ended) == spec_update_over_time(
            who,
            *old(animator),
            *old(current_index),
            delta,
            *current_animation,
            *time_scale,
            listen_end,
        ),
{
    if animator.has_reached_end_without_repeat || current_animation.frame_gap() == 0 {
        return None;
    }
    let scaled_time = time_scale.scale_duration(delta);

    if !animator.duration_for_animation.tick(scaled_time) {
        return None;
    }
    let last_frame_has_ended = current_animation.end() == *current_index;
    let report_end_of_last_frame = listen_end && last_frame_has_ended;
    let has_reached_end_without_repeat = last_frame_has_ended && !current_animation.is_infinite();

    let ended = if report_end_of_last_frame {
        Some(AnimationEnded::new_complete(who, animator.current_state.clone()))
    } else {
        None
    };

    if has_reached_end_without_repeat {
        animator.has_reached_end_without_repeat = true;
    } else {
        animator.duration_for_animation = new_reapting_time(current_animation.time_per_frame());
        *current_index = if *current_index >= current_animation.end() {
            current_animation.start()
        } else {
            *current_index + 1
        };
    }
    ended
}

/// The passing of time never takes the shown frame out of the frames of the
/// state that is played.
pub proof fn lemma_shown_frame_stays_in_range(
    who: Entity,
    animator: AnimationComp,
    index: AnimationIndex,
    delta: AnimationDuration,
    frames: AnimationFrames,
    time_scale: AnimationTimeScale,
    listen_end: bool,
)
    requires
        frames.spec_start() <= index <= frames.spec_end(),
    ensures
        frames.spec_start() <= spec_update_over_time(
            who,
            animator,
            index,
            delta,
            frames,
            time_scale,
            listen_end,
        ).1 <= frames.spec_end(),
{
    frames.lemma_ends_are_indices();
}

/// An entity that is held on the last frame of a state that does not repeat
/// stays as it is however much time passes, and nothing is reported of it.
pub proof fn lemma_held_entity_is_frozen(
    who: Entity,
    animator: AnimationComp,
    index: AnimationIndex,
    delta: AnimationDuration,
    frames: AnimationFrames,
    time_scale: AnimationTimeScale,
    listen_end: bool,
)
    requires
        animator.has_reached_end_without_repeat,
    ensures
        spec_update_over_time(who, animator, index, delta, frames, time_scale, listen_end) == (
            animator,
            index,
            None::<AnimationEnded>,
        ),
{
}

/// The end of a state is reported only of an entity whose reports are asked
/// for, that is not held, and on whose last frame the timer goes off; the
/// report says that the state was played to its end.
pub proof fn lemma_report_marks_the_end(
    who: Entity,
    animator: AnimationComp,
    index: AnimationIndex,
    delta: AnimationDuration,
    frames: AnimationFrames,
    time_scale: AnimationTimeScale,
    listen_end: bool,
)
    requires
        spec_update_over_time(who, animator, index, delta, frames, time_scale, listen_end).2 is Some,
    ensures
        listen_end,
        !animator.has_reached_end_without_repeat,
        index == frames.spec_end(),
        animator.duration_for_animation.spec_fires(time_scale.spec_scale_duration(delta)),
        spec_update_over_time(who, animator, index, delta, frames, time_scale, listen_end).2
            == Some(spec_completed(who, animator.current_state)),
{
}

/// A state that does not repeat is reported to have ended exactly once:
/// in the tick in which the timer goes off on its last frame. The entity is
/// then held on that frame, and whatever time passes afterwards, nothing
/// more is reported and the shown frame stays.
pub proof fn lemma_end_is_reported_once(
    who: Entity,
    animator: AnimationComp,
    index: AnimationIndex,
    delta: AnimationDuration,
    later: AnimationDuration,
    frames: AnimationFrames,
    time_scale: AnimationTimeScale,
)
    requires
        !frames.spec_is_infinite(),
        frames.spec_frame_gap() > 0,
        !animator.has_reached_end_without_repeat,
        index == frames.spec_end(),
        animator.duration_for_animation.spec_fires(time_scale.spec_scale_duration(delta)),
    ensures
        ({
            let (held, shown, ended) = spec_update_over_time(
                who,
                animator,
                index,
                delta,
                frames,
                time_scale,
                true,
            );
            &&& ended == Some(spec_completed(who, animator.current_state))
            &&& shown == index
            &&& held.has_reached_end_without_repeat
            &&& spec_update_over_time(who, held, shown, later, frames, time_scale, true) == (
                held,
                shown,
                None::<AnimationEnded>,
            )
        }),
{
}

/// What the frame pass does to an entity that plays `frames`: the entity
/// afterwards and the report that is due, if any.
///
/// An entity whose progress readout is marked manual shows the frame that
/// lies as far through the state as the readout says; its timer is left
/// alone and nothing is reported. For every other entity time passes, and a
/// readout that is not manual is then brought up to date.
pub open spec fn spec_apply_update(
    sprite: AnimatedSprite,
    delta: AnimationDuration,
    frames: AnimationFrames,
) -> (AnimatedSprite, Option<AnimationEnded>) {
    let (animator, index, ended) = spec_update_over_time(
        sprite.who,
        sprite.animator,
        sprite.index,
        delta,
        frames,
        sprite.time_scale,
        sprite.listen_end,
    );
    match sprite.progress {
        Some(readout) => if readout.manual {
            (
                AnimatedSprite {
                    index: frames.spec_index_at(readout.progress.spec_value()) as usize,
                    ..sprite
                },
                None,
            )
        } else {
            (
                AnimatedSprite {
                    animator,
                    index,
                    progress: Some(
                        AnimationPrecentProgress {
                            progress: PercentScaleFactor::from_millionths(
                                spec_progress(frames, index as int, animator.duration_for_animation),
                            ),
                            manual: false,
                        },
                    ),
                    ..sprite
                },
                ended,
            )
        },
        None => (AnimatedSprite { animator, index, ..sprite }, ended),
    }
}

/// What the frame pass owes for the entity `before`: where the repository
/// holds the state that the entity plays, what `spec_apply_update` says;
/// otherwise the entity stays as it is and the name that did not resolve is
/// reported.
pub open spec fn spec_frame_pass(
    before: AnimatedSprite,
    delta: AnimationDuration,
    collections: Map<Seq<char>, crate::animation_collection::AnimationCollection>,
    after: AnimatedSprite,
    result: KeyLookUpResult<Option<AnimationEnded>>,
) -> bool {
    match spec_frames_of(collections, before.animator.sequence@, before.animator.current_state@) {
        Some(frames) => result is Ok && (after, result->Ok_0) == spec_apply_update(
            before,
            delta,
            frames,
        ),
        None => result is Err && after == before && spec_lookup_failure(
            collections,
            before.animator.sequence@,
            before.animator.current_state@,
            result->Err_0,
        ),
    }
}

/// The frame pass for one entity.
pub fn try_apply_update(
    sprite: &mut AnimatedSprite,
    delta: AnimationDuration,
    repos: &AllAnimationResource,
) -> (result: KeyLookUpResult<Option<AnimationEnded>>)
    ensures
        spec_frame_pass(*old(sprite), delta, repos@, *final(sprite), result),
{
    let current_animation = match sprite.animator.get_current_seq(repos) {
        Ok(current_animation) => current_animation,
        Err(error) => {
            return Err(error);
        },
    };
    match sprite.progress {
        Some(AnimationPrecentProgress { manual: true, progress }) => {
            sprite.index = current_animation.index_from_precent(progress);
            Ok(None)
        },
        Some(AnimationPrecentProgress { manual: false, progress: _ }) => {
            let ended = update_over_time(
                sprite.who,
                &mut sprite.animator,
                &mut sprite.index,
                delta,
                &current_animation,
                &sprite.time_scale,
                sprite.listen_end,
            );
            sprite.progress = Some(
                AnimationPrecentProgress {
                    progress: progress_in(
                        &current_animation,
                        sprite.index,
                        &sprite.animator.duration_for_animation,
                    ),
                    manual: false,
                },
            );
            Ok(ended)
        },
        None => {
            let ended = update_over_time(
                sprite.who,
                &mut sprite.animator,
                &mut sprite.index,
                delta,
                &current_animation,
                &sprite.time_scale,
                sprite.listen_end,
            );
            Ok(ended)
        },
    }
}

/// What the reset pass does to an entity that has been asked to start over
/// and plays `frames`: it shows the first frame with a fresh timer, is no
/// longer held on the last frame, and the request is taken up.
pub open spec fn spec_state_reset(sprite: AnimatedSprite, frames: AnimationFrames) -> AnimatedSprite {
    AnimatedSprite {
        animator: AnimationComp {
            reset_state: false,
            duration_for_animation: spec_frame_timer(frames),
            has_reached_end_without_repeat: false,
            ..sprite.animator
        },
        index: frames.spec_start() as usize,
        ..sprite
    }
}

/// What the reset pass owes for the entity `before`. An entity that has not
/// been asked to start over is left as it is. Where the repository does not
/// hold the state that the entity plays, the entity is left as it is too, its
/// request still standing, and the name that did not resolve is reported.
pub open spec fn spec_reset_pass(
    before: AnimatedSprite,
    collections: Map<Seq<char>, crate::animation_collection::AnimationCollection>,
    after: AnimatedSprite,
    result: KeyLookUpResult<()>,
) -> bool {
    if !before.animator.reset_state {
        result is Ok && after == before
    } else {
        match spec_frames_of(collections, before.animator.sequence@, before.animator.current_state@) {
            Some(frames) => result is Ok && after == spec_state_reset(before, frames),
            None => result is Err && after == before && spec_lookup_failure(
                collections,
                before.animator.sequence@,
                before.animator.current_state@,
                result->Err_0,
            ),
        }
    }
}

/// The reset pass run twice in a row changes nothing the second time: the
/// shown frame stays where the first run put it or left it, and the second
/// run fails exactly where the first one did.
pub proof fn lemma_reset_is_idempotent(
    before: AnimatedSprite,
    collections: Map<Seq<char>, crate::animation_collection::AnimationCollection>,
    once: AnimatedSprite,
    first: KeyLookUpResult<()>,
    twice: AnimatedSprite,
    second: KeyLookUpResult<()>,
)
    requires
        spec_reset_pass(before, collections, once, first),
        spec_reset_pass(once, collections, twice, second),
    ensures
        twice == once,
        twice.index == once.index,
        second is Ok <==> first is Ok,
{
}

/// An entity that is asked to start over again right after it did, with no
/// time passed in between, shows the same frame after the second reset as
/// after the first.
pub proof fn lemma_reset_again_keeps_frame(
    before: AnimatedSprite,
    collections: Map<Seq<char>, crate::animation_collection::AnimationCollection>,
    once: AnimatedSprite,
    first: KeyLookUpResult<()>,
    again: AnimatedSprite,
    second: KeyLookUpResult<()>,
)
    requires
        before.animator.reset_state,
        spec_reset_pass(before, collections, once, first),
        spec_reset_pass(
            AnimatedSprite {
                animator: AnimationComp { reset_state: true, ..once.animator },
                ..once
            },
            collections,
            again,
            second,
        ),
    ensures
        again.index == once.index,
        again == once,
{
}

/// The reset pass for one entity.
pub fn apply_state_reset(sprite: &mut AnimatedSprite, repos: &AllAnimationResource) -> (result:
    KeyLookUpResult<()>)
    ensures
        spec_reset_pass(*old(sprite), repos@, *final(sprite), result),
{
    if sprite.animator.reset_state {
        let current_animation = match sprite.animator.get_current_seq(repos) {
            Ok(current_animation) => current_animation,
            Err(error) => {
                return Err(error);
            },
        };
        sprite.animator.reset_state = false;
        sprite.index = current_animation.start();
        sprite.animator.duration_for_animation = new_reapting_time(
            current_animation.time_per_frame(),
        );
        sprite.animator.has_reached_end_without_repeat = false;
    }
    Ok(())
}

/// The entity `sprite` with the state it was asked to play no longer pending.
pub open spec fn spec_pending_cleared(sprite: AnimatedSprite) -> AnimatedSprite {
    AnimatedSprite { animator: AnimationComp { next_state: None, ..sprite.animator }, ..sprite }
}

/// Whether `after` is the entity `before` once it has gone over to the state
/// `state` with the frames `frames`: it plays that state and shows its first
/// frame with a fresh timer, is not held on a last frame, has no state
/// pending, and its progress readout, where it has one, is back at nothing.
pub open spec fn spec_state_changed(
    before: AnimatedSprite,
    state: Seq<char>,
    frames: AnimationFrames,
    after: AnimatedSprite,
) -> bool {
    &&& after.who == before.who
    &&& after.index == frames.spec_start()
    &&& after.time_scale == before.time_scale
    &&& after.listen_end == before.listen_end
    &&& after.progress == match before.progress {
        Some(readout) => Some(
            AnimationPrecentProgress {
                progress: PercentScaleFactor::from_millionths(0),
                manual: readout.manual,
            },
        ),
        None => None,
    }
    &&& after.animator.sequence == before.animator.sequence
    &&& after.animator.current_state@ == state
    &&& after.animator.reset_state == before.animator.reset_state
    &&& after.animator.duration_for_animation == spec_frame_timer(frames)
    &&& after.animator.next_state is None
    &&& !after.animator.has_reached_end_without_repeat
}

/// The report that the entity `sprite` has left the state it plays, with
/// `frames`, before its end.
pub open spec fn spec_abandoned(sprite: AnimatedSprite, frames: AnimationFrames) -> AnimationEnded {
    AnimationEnded {
        who: sprite.who,
        state: sprite.animator.current_state,
        progress: PercentScaleFactor::from_millionths(
            spec_progress(frames, sprite.index as int, sprite.animator.duration_for_animation),
        ),
    }
}

/// What the transition pass owes for the entity `before` that was asked to
/// play the state `pending`.
///
/// The request is taken up whatever follows. Where the repository holds the
/// new state, and, for an entity whose states' ends are reported, the state
/// that is left too, the entity goes over to the new state, and the report
/// says how far through the state that is left it was. Otherwise the entity
/// stays in its state and the name that did not resolve is reported: that of
/// the new state first.
pub open spec fn spec_state_change(
    before: AnimatedSprite,
    pending: Seq<char>,
    collections: Map<Seq<char>, crate::animation_collection::AnimationCollection>,
    after: AnimatedSprite,
    result: KeyLookUpResult<Option<AnimationEnded>>,
) -> bool {
    let sequence = before.animator.sequence@;
    let current = before.animator.current_state@;
    match spec_frames_of(collections, sequence, pending) {
        None => {
            &&& result is Err
            &&& spec_lookup_failure(collections, sequence, pending, result->Err_0)
            &&& after == spec_pending_cleared(before)
        },
        Some(frames) => if !before.listen_end {
            &&& result is Ok
            &&& result->Ok_0 is None
            &&& spec_state_changed(before, pending, frames, after)
        } else {
            match spec_frames_of(collections, sequence, current) {
                None => {
                    &&& result is Err
                    &&& spec_lookup_failure(collections, sequence, current, result->Err_0)
                    &&& after == spec_pending_cleared(before)
                },
                Some(left) => {
                    &&& result is Ok
                    &&& result->Ok_0 == Some(spec_abandoned(before, left))
                    &&& spec_state_changed(before, pending, frames, after)
                },
            }
        },
    }
}

/// What the transition pass owes for the entity `before`. An entity that
/// was not asked to play another state is left as it is.
pub open spec fn spec_transition_pass(
    before: AnimatedSprite,
    collections: Map<Seq<char>, crate::animation_collection::AnimationCollection>,
    after: AnimatedSprite,
    result: KeyLookUpResult<Option<AnimationEnded>>,
) -> bool {
    match before.animator.next_state {
        None => result is Ok && result->Ok_0 is None && after == before,
        Some(pending) => spec_state_change(before, pending@, collections, after, result),
    }
}

/// The transition pass for one entity.
pub fn try_apply_state_change(sprite: &mut AnimatedSprite, respo: &AllAnimationResource) -> (result:
    KeyLookUpResult<Option<AnimationEnded>>)
    ensures
        spec_transition_pass(*old(sprite), respo@, *final(sprite), result),
{
    let new = match sprite.animator.next_state.take() {
        Some(new) => new,
        None => {
            return Ok(None);
        },
    };
    let (new_key, new_time, start) = match get_animation_seq(
        respo,
        sprite.animator.sequence.as_str(),
        new.as_str(),
    ) {
        Ok(found) => (found.0.to_owned(), found.1.time_per_frame(), found.1.start()),
        Err(error) => {
            return Err(error);
        },
    };
    let ended = if sprite.listen_end {
        match get_progress_of_animation(&sprite.animator, respo, sprite.index) {
            Ok(progress) => Some(
                AnimationEnded { who: sprite.who, state: sprite.animator.current_state.clone(), progress },
            ),
            Err(error) => {
                return Err(error);
            },
        }
    } else {
        None
    };
    match sprite.progress {
        Some(to_reset) => {
            sprite.progress = Some(
                AnimationPrecentProgress {
                    progress: PercentScaleFactor::zero(),
                    manual: to_reset.manual,
                },
            );
        },
        None => {},
    }
    sprite.animator.current_state = new_key;
    sprite.animator.duration_for_animation = new_reapting_time(new_time);
    sprite.index = start;
    sprite.animator.has_reached_end_without_repeat = false;
    Ok(ended)
}

/// The frame pass of one tick, over every entity in turn: `delta` passes for
/// each of them. While the clock is paused nothing is done at all. Returns
/// what came of each entity, in their order: the report that is due, if any,
/// or the name that did not resolve. One entity's failure leaves the others
/// untouched.
pub fn animate(
    sprites: &mut Vec<AnimatedSprite>,
    delta: AnimationDuration,
    paused: bool,
    repos: &AllAnimationResource,
) -> (outcomes: Vec<KeyLookUpResult<Option<AnimationEnded>>>)
    ensures
        final(sprites).len() == old(sprites).len(),
        paused ==> outcomes.len() == 0 && final(sprites)@ == old(sprites)@,
        !paused ==> outcomes.len() == old(sprites).len() && forall|i: int|
            0 <= i < old(sprites).len() ==> spec_frame_pass(
                old(sprites)[i],
                delta,
                repos@,
                #[trigger] final(sprites)[i],
                outcomes[i],
            ),
{
    let mut outcomes: Vec<KeyLookUpResult<Option<AnimationEnded>>> = Vec::new();
    if paused {
        return outcomes;
    }
    let ghost before = sprites@;
    let mut i: usize = 0;
    while i < sprites.len()
        invariant
            0 <= i <= sprites.len(),
            sprites.len() == before.len(),
            outcomes.len() == i,
            forall|j: int| i <= j < before.len() ==> #[trigger] sprites[j] == before[j],
            forall|j: int|
                0 <= j < i ==> spec_frame_pass(
                    before[j],
                    delta,
                    repos@,
                    #[trigger] sprites[j],
                    outcomes[j],
                ),
        decreases sprites.len() - i,
    {
        let outcome = try_apply_update(&mut sprites[i], delta, repos);
        outcomes.push(outcome);
        i = i + 1;
    }
    outcomes
}

/// The transition pass of one tick, over every entity in turn. While the
/// clock is paused nothing is done at all: every request stays pending.
/// Returns what came of each entity, in their order: the report that is due,
/// if any, or the name that did not resolve.
pub fn apply_pending_states(
    sprites: &mut Vec<AnimatedSprite>,
    paused: bool,
    repos: &AllAnimationResource,
) -> (outcomes: Vec<KeyLookUpResult<Option<AnimationEnded>>>)
    ensures
        final(sprites).len() == old(sprites).len(),
        paused ==> outcomes.len() == 0 && final(sprites)@ == old(sprites)@,
        !paused ==> outcomes.len() == old(sprites).len() && forall|i: int|
            0 <= i < old(sprites).len() ==> spec_transition_pass(
                old(sprites)[i],
                repos@,
                #[trigger] final(sprites)[i],
                outcomes[i],
            ),
{
    let mut outcomes: Vec<KeyLookUpResult<Option<AnimationEnded>>> = Vec::new();
    if paused {
        return outcomes;
    }
    let ghost before = sprites@;
    let mut i: usize = 0;
    while i < sprites.len()
        invariant
            0 <= i <= sprites.len(),
            sprites.len() == before.len(),
            outcomes.len() == i,
            forall|j: int| i <= j < before.len() ==> #[trigger] sprites[j] == before[j],
            forall|j: int|
                0 <= j < i ==> spec_transition_pass(
                    before[j],
                    repos@,
                    #[trigger] sprites[j],
                    outcomes[j],
                ),
        decreases sprites.len() - i,
    {
        let outcome = try_apply_state_change(&mut sprites[i], repos);
        outcomes.push(outcome);
        i = i + 1;
    }
    outcomes
}

/// The reset pass of one tick, over every entity in turn. While the clock is
/// paused nothing is done at all: every request stays as it is. Returns what
/// came of each entity, in their order: nothing, or the name that did not
/// resolve.
pub fn do_pending_resets(
    sprites: &mut Vec<AnimatedSprite>,
    paused: bool,
    repos: &AllAnimationResource,
) -> (outcomes: Vec<KeyLookUpResult<()>>)
    ensures
        final(sprites).len() == old(sprites).len(),
        paused ==> outcomes.len() == 0 && final(sprites)@ == old(sprites)@,
        !paused ==> outcomes.len() == old(sprites).len() && forall|i: int|
            0 <= i < old(sprites).len() ==> spec_reset_pass(
                old(sprites)[i],
                repos@,
                #[trigger] final(sprites)[i],
                outcomes[i],
            ),
{
    let mut outcomes: Vec<KeyLookUpResult<()>> = Vec::new();
    if paused {
        return outcomes;
    }
    let ghost before = sprites@;
    let mut i: usize = 0;
    while i < sprites.len()
        invariant
            0 <= i <= sprites.len(),
            sprites.len() == before.len(),
            outcomes.len() == i,
            forall|j: int| i <= j < before.len() ==> #[trigger] sprites[j] == before[j],
            forall|j: int|
                0 <= j < i ==> spec_reset_pass(before[j], repos@, #[trigger] sprites[j], outcomes[j]),
        decreases sprites.len() - i,
    {
        let outcome = apply_state_reset(&mut sprites[i], repos);
        outcomes.push(outcome);
        i = i + 1;
    }
    outcomes
}

/// The reports among `outcomes`, in their order.
pub open spec fn spec_ended_in(outcomes: Seq<KeyLookUpResult<Option<AnimationEnded>>>) -> Seq<
    AnimationEnded,
>
    decreases outcomes.len(),
{
    if outcomes.len() == 0 {
        Seq::empty()
    } else {
        let earlier = spec_ended_in(outcomes.drop_last());
        match outcomes.last() {
            Ok(Some(ended)) => earlier.push(ended),
            _ => earlier,
        }
    }
}

/// Gathers the reports that a pass has made, in the order of the entities
/// they are about, into the batch that goes out to whoever listens.
pub fn ended_in(outcomes: &Vec<KeyLookUpResult<Option<AnimationEnded>>>) -> (reports: Vec<
    AnimationEnded,
>)
    ensures
        reports@ == spec_ended_in(outcomes@),
{
    let mut reports: Vec<AnimationEnded> = Vec::new();
    let mut i: usize = 0;
    while i < outcomes.len()
        invariant
            0 <= i <= outcomes.len(),
            reports@ == spec_ended_in(outcomes@.take(i as int)),
        decreases outcomes.len() - i,
    {
        proof {
            assert(outcomes@.take(i + 1).drop_last() =~= outcomes@.take(i as int));
        }
        match &outcomes[i] {
            Ok(Some(ended)) => {
                reports.push(
                    AnimationEnded {
                        who: ended.who,
                        progress: ended.progress,
                        state: ended.state.clone(),
                    },
                );
            },
            _ => {},
        }
        i = i + 1;
    }
    proof {
        assert(outcomes@.take(i as int) =~= outcomes@);
    }
    reports
}

/// What came of each entity in each of the three passes of one tick, in the
/// entities' order.
#[derive(Debug, PartialEq, Eq)]
pub struct TickOutcomes {
    pub transitions: Vec<KeyLookUpResult<Option<AnimationEnded>>>,
    pub frames: Vec<KeyLookUpResult<Option<AnimationEnded>>>,
    pub resets: Vec<KeyLookUpResult<()>>,
}

/// What one tick owes for the entity `before`: the transition pass, then the
/// frame pass on what that left, then the reset pass on what that left.
pub open spec fn spec_tick(
    before: AnimatedSprite,
    delta: AnimationDuration,
    collections: Map<Seq<char>, crate::animation_collection::AnimationCollection>,
    after: AnimatedSprite,
    transition: KeyLookUpResult<Option<AnimationEnded>>,
    frame: KeyLookUpResult<Option<AnimationEnded>>,
    reset: KeyLookUpResult<()>,
) -> bool {
    exists|switched: AnimatedSprite, advanced: AnimatedSprite|
        #![trigger
            spec_transition_pass(before, collections, switched, transition),
            spec_reset_pass(advanced, collections, after, reset)]
        {
            &&& spec_transition_pass(before, collections, switched, transition)
            &&& spec_frame_pass(switched, delta, collections, advanced, frame)
            &&& spec_reset_pass(advanced, collections, after, reset)
        }
}

/// One tick: the transition pass, the frame pass and the reset pass, in that
/// order, each over every entity. While the clock is paused nothing is done
/// at all.
pub fn tick(
    sprites: &mut Vec<AnimatedSprite>,
    delta: AnimationDuration,
    paused: bool,
    repos: &AllAnimationResource,
) -> (outcomes: TickOutcomes)
    ensures
        final(sprites).len() == old(sprites).len(),
        paused ==> final(sprites)@ == old(sprites)@ && outcomes.transitions.len() == 0
            && outcomes.frames.len() == 0 && outcomes.resets.len() == 0,
        !paused ==> outcomes.transitions.len() == old(sprites).len() && outcomes.frames.len()
            == old(sprites).len() && outcomes.resets.len() == old(sprites).len() && forall|i: int|
            0 <= i < old(sprites).len() ==> spec_tick(
                old(sprites)[i],
                delta,
                repos@,
                #[trigger] final(sprites)[i],
                outcomes.transitions[i],
                outcomes.frames[i],
                outcomes.resets[i],
            ),
{
    if paused {
        return TickOutcomes { transitions: Vec::new(), frames: Vec::new(), resets: Vec::new() };
    }
    let ghost before = sprites@;
    let transitions = apply_pending_states(sprites, false, repos);
    let ghost switched = sprites@;
    let frames = animate(sprites, delta, false, repos);
    let ghost advanced = sprites@;
    let resets = do_pending_resets(sprites, false, repos);
    proof {
        assert forall|i: int| 0 <= i < before.len() implies spec_tick(
            before[i],
            delta,
            repos@,
            #[trigger] sprites[i],
            transitions[i],
            frames[i],
            resets[i],
        ) by {
            assert(spec_transition_pass(before[i], repos@, switched[i], transitions[i]));
            assert(spec_frame_pass(switched[i], delta, repos@, advanced[i], frames[i]));
            assert(spec_reset_pass(advanced[i], repos@, sprites[i], resets[i]));
        }
    }
    TickOutcomes { transitions, frames, resets }
}

} // verus!
