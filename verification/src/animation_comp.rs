use vstd::prelude::*;
use bevy::time::Timer;
use bevy::time::TimerMode;
use bevy::utils::Duration;
use crate::animation_collection::AnimationCollection;
use crate::animation_error::NotFoundError;
use crate::animation_frames::AnimationFrames;
use crate::animation_respo_resource::AllAnimationResource;
use crate::pos_scale_factor::SCALE_ONE;
use crate::precent::PercentScaleFactor;
use crate::text_like::TextLike;
use crate::types::AnimationDuration;
use crate::types::AnimationIndex;
use crate::types::KeyLookUpResult;
use crate::utils::scaled;
use crate::utils::spec_scaled;

verus! {

/// A timer that goes off each time `duration` has passed and then starts
/// over, keeping what passed beyond it. It holds, in nanoseconds, what bevy's
/// repeating `Timer` holds.
#[derive(Debug, Clone, Copy, PartialEq, Eq, Structural)]
pub struct AnimationTimer {
    pub duration: AnimationDuration,
    pub elapsed: AnimationDuration,
}

/// Time on a repeating timer after `delta` has passed: the time before and
/// `delta` together, less every whole `duration` that they hold.
pub open spec fn spec_elapsed_after(duration: int, elapsed: int, delta: int) -> int {
    if elapsed + delta < duration {
        elapsed + delta
    } else if duration == 0 {
        0
    } else {
        (elapsed + delta) % duration
    }
}

/// Runs a repeating `Timer` of bevy, set to `duration` with `elapsed` on it,
/// through one `Timer::tick` of `delta`; all three are nanoseconds. Returns
/// the time on the timer after the tick and what `Timer::finished` says: the
/// timer has finished where the time on it reached `duration`, and then
/// starts over with the remainder.
#[verifier::external_body]
fn tick_repeating_timer(duration: u64, elapsed: u64, delta: u64) -> (ticked: (u64, bool))
    ensures
        ticked.0 == spec_elapsed_after(duration as int, elapsed as int, delta as int),
        ticked.1 == (elapsed + delta >= duration),
{
    let mut timer = Timer::new(Duration::from_nanos(duration), TimerMode::Repeating);
    timer.set_elapsed(Duration::from_nanos(elapsed));
    timer.tick(Duration::from_nanos(delta));
    (timer.elapsed().as_nanos() as u64, timer.finished())
}

/// However much time passes, a timer that has a duration has less than its
/// duration on it afterwards, and its duration is what it was.
pub proof fn lemma_ticked_timer_is_below_duration(timer: AnimationTimer, delta: AnimationDuration)
    requires
        timer.duration.nanos > 0,
    ensures
        timer.spec_ticked(delta).elapsed.nanos < timer.duration.nanos,
        timer.spec_ticked(delta).duration == timer.duration,
{
    let total = timer.elapsed.nanos + delta.nanos;
    let duration = timer.duration.nanos as int;
    if total >= duration {
        assert(0 <= total % duration < duration) by (nonlinear_arith)
            requires
                duration > 0,
                total >= 0,
        ;
    }
}

impl AnimationTimer {
    /// The timer after `delta` has passed.
    pub open spec fn spec_ticked(self, delta: AnimationDuration) -> AnimationTimer {
        AnimationTimer {
            duration: self.duration,
            elapsed: AnimationDuration {
                nanos: spec_elapsed_after(
                    self.duration.nanos as int,
                    self.elapsed.nanos as int,
                    delta.nanos as int,
                ) as u64,
            },
        }
    }

    /// Whether the timer goes off when `delta` passes.
    pub open spec fn spec_fires(self, delta: AnimationDuration) -> bool {
        self.elapsed.nanos + delta.nanos >= self.duration.nanos
    }

    /// How far the timer is on its way to going off, in millionths, rounded
    /// down. A timer without duration is always all the way.
    pub open spec fn spec_percent(self) -> int {
        if self.duration.nanos == 0 {
            SCALE_ONE as int
        } else {
            spec_scaled(self.elapsed.nanos as int, SCALE_ONE as int, self.duration.nanos as int)
        }
    }

    /// A timer for `duration` on which no time has passed.
    pub fn new(duration: AnimationDuration) -> (timer: Self)
        ensures
            timer == (AnimationTimer { duration, elapsed: AnimationDuration { nanos: 0 } }),
    {
        AnimationTimer { duration, elapsed: AnimationDuration::zero() }
    }

    /// Lets `delta` pass. Returns whether the timer went off.
    pub fn tick(&mut self, delta: AnimationDuration) -> (fired: bool)
        ensures
            *final(self) == old(self).spec_ticked(delta),
            fired == old(self).spec_fires(delta),
    {
        let (elapsed, fired) = tick_repeating_timer(
            self.duration.as_nanos(),
            self.elapsed.as_nanos(),
            delta.as_nanos(),
        );
        self.elapsed = AnimationDuration::from_nanos(elapsed);
        fired
    }

    /// Takes all time off the timer.
    pub fn reset(&mut self)
        ensures
            *final(self) == (AnimationTimer {
                duration: old(self).duration,
                elapsed: AnimationDuration { nanos: 0 },
            }),
    {
        self.elapsed = AnimationDuration::zero();
    }

    /// How far the timer is on its way to going off.
    pub fn percent(&self) -> (percent: PercentScaleFactor)
        ensures
            percent == PercentScaleFactor::from_millionths(self.spec_percent()),
    {
        if self.duration.as_nanos() == 0 {
            PercentScaleFactor::new_as_complete()
        } else {
            PercentScaleFactor::clamp_unsigned(
                scaled(self.elapsed.as_nanos(), SCALE_ONE, self.duration.as_nanos()),
            )
        }
    }
}

/// What one entity plays: the sequence and the state in it, the timer of the
/// frame that is shown, and what has been asked of it since the last tick.
#[derive(Debug, Clone, PartialEq, Eq)]
pub struct AnimationComp {
    pub sequence: String,
    pub current_state: String,
    pub reset_state: bool,
    pub duration_for_animation: AnimationTimer,
    pub next_state: Option<String>,
    pub has_reached_end_without_repeat: bool,
}

/// The frames of the state `state` of the sequence `sequence`, where the
/// repository holds them.
pub open spec fn spec_frames_of(
    collections: Map<Seq<char>, AnimationCollection>,
    sequence: Seq<char>,
    state: Seq<char>,
) -> Option<AnimationFrames> {
    if collections.contains_key(sequence) && collections[sequence].spec_frames()@.contains_key(state) {
        Some(collections[sequence].spec_frames()@[state])
    } else {
        None
    }
}

/// Whether `error` reports the name that stopped the lookup of the state
/// `state` of the sequence `sequence`: the sequence where it is not
/// registered, else the state.
pub open spec fn spec_lookup_failure(
    collections: Map<Seq<char>, AnimationCollection>,
    sequence: Seq<char>,
    state: Seq<char>,
    error: NotFoundError,
) -> bool {
    if !collections.contains_key(sequence) {
        error matches NotFoundError::AnimationSequence(missing) && missing@ == sequence
    } else {
        error matches NotFoundError::SingleAnimation(missing) && missing@ == state
    }
}

/// The state that is pending once the state `requested` has been asked for
/// of an entity that plays `current` and has `pending` pending: a request for
/// the state that is played changes nothing; every other request takes the
/// place of what was pending.
pub open spec fn spec_pending_after(
    current: Seq<char>,
    pending: Option<Seq<char>>,
    requested: Seq<char>,
) -> Option<Seq<char>> {
    if requested == current {
        pending
    } else {
        Some(requested)
    }
}

/// A request for the state that is played queues nothing; a request for any
/// other state queues that state.
pub proof fn lemma_request_is_filtered(current: Seq<char>, pending: Option<Seq<char>>, requested: Seq<char>)
    ensures
        spec_pending_after(current, pending, current) == pending,
        requested != current ==> spec_pending_after(current, pending, requested) == Some(requested),
{
}

/// Of two requests for states other than the one that is played, made before
/// the next tick, the later one alone is pending.
pub proof fn lemma_latest_request_survives(
    current: Seq<char>,
    pending: Option<Seq<char>>,
    first: Seq<char>,
    second: Seq<char>,
)
    requires
        second != current,
    ensures
        spec_pending_after(current, spec_pending_after(current, pending, first), second) == Some(
            second,
        ),
{
}

/// A timer for `time` that starts over each time it goes off.
pub fn new_reapting_time(time: AnimationDuration) -> (timer: AnimationTimer)
    ensures
        timer == (AnimationTimer { duration: time, elapsed: AnimationDuration { nanos: 0 } }),
{
    AnimationTimer::new(time)
}

/// Looks up the state `current_state` of the sequence `frames`. Returns its
/// frames with the repository's own copy of the state's name.
pub fn get_animation_seq<'a>(repos: &'a AllAnimationResource, frames: &str, current_state: &str) -> (result:
    KeyLookUpResult<(&'a str, AnimationFrames)>)
    ensures
        match spec_frames_of(repos@, frames@, current_state@) {
            Some(found) => result is Ok && result->Ok_0.0@ == current_state@ && result->Ok_0.1
                == found,
            None => result is Err && spec_lookup_failure(
                repos@,
                frames@,
                current_state@,
                result->Err_0,
            ),
        },
{
    match repos.animation_under(frames) {
        Ok(collection) => collection.key_and_frames_under(current_state),
        Err(error) => Err(error),
    }
}

impl AnimationComp {
    /// Name of the state that the entity was asked to play, if a request is
    /// pending.
    pub open spec fn spec_pending(&self) -> Option<Seq<char>> {
        match self.next_state {
            Some(pending) => Some(pending@),
            None => None,
        }
    }

    /// The entity that has just been told to play the state `start_state` of
    /// the sequence `all_frames`: the timer of its first frame is fresh and
    /// nothing is asked of it. Fails where the repository does not hold the
    /// state.
    pub fn new(all_frames: String, start_state: String, repos: &AllAnimationResource) -> (result:
        Result<Self, NotFoundError>)
        ensures
            match spec_frames_of(repos@, all_frames@, start_state@) {
                Some(found) => result is Ok && result->Ok_0 == (AnimationComp {
                    sequence: all_frames,
                    current_state: start_state,
                    reset_state: false,
                    duration_for_animation: AnimationTimer {
                        duration: AnimationDuration { nanos: found.spec_time_per_frame() as u64 },
                        elapsed: AnimationDuration { nanos: 0 },
                    },
                    next_state: None,
                    has_reached_end_without_repeat: false,
                }),
                None => result is Err && spec_lookup_failure(
                    repos@,
                    all_frames@,
                    start_state@,
                    result->Err_0,
                ),
            },
    {
        let duration = match get_animation_seq(repos, all_frames.as_str(), start_state.as_str()) {
            Ok(found) => found.1.time_per_frame(),
            Err(error) => {
                return Err(error);
            },
        };
        let frame_seq_duration = new_reapting_time(duration);
        Ok(
            Self {
                duration_for_animation: frame_seq_duration,
                sequence: all_frames,
                current_state: start_state,
                next_state: None,
                reset_state: false,
                has_reached_end_without_repeat: false,
            },
        )
    }

    /// Asks for the state `key` to be played from the next tick on, whatever
    /// is played now. A request that has not been taken up yet is replaced.
    pub fn set_state(&mut self, key: TextLike)
        ensures
            final(self).next_state is Some,
            final(self).next_state->Some_0@ == key.spec_text(),
            final(self).sequence == old(self).sequence,
            final(self).current_state == old(self).current_state,
            final(self).reset_state == old(self).reset_state,
            final(self).duration_for_animation == old(self).duration_for_animation,
            final(self).has_reached_end_without_repeat == old(self).has_reached_end_without_repeat,
    {
        self.next_state = Some(key.into_registered_name());
    }

    /// Asks for the state `key` to be played from the next tick on, unless it
    /// is the state that is played now: then nothing changes.
    pub fn change_state(&mut self, key: TextLike)
        ensures
            key.spec_text() == old(self).current_state@ ==> *final(self) == *old(self),
            final(self).spec_pending() == spec_pending_after(
                old(self).current_state@,
                old(self).spec_pending(),
                key.spec_text(),
            ),
            final(self).sequence == old(self).sequence,
            final(self).current_state == old(self).current_state,
            final(self).reset_state == old(self).reset_state,
            final(self).duration_for_animation == old(self).duration_for_animation,
            final(self).has_reached_end_without_repeat == old(self).has_reached_end_without_repeat,
    {
        let name = key.into_registered_name();
        if name != self.current_state {
            self.next_state = Some(name);
        }
    }

    /// Asks for the state that is played to start over at the next tick.
    pub fn reset_current_state(&mut self)
        ensures
            *final(self) == (AnimationComp { reset_state: true, ..*old(self) }),
    {
        self.reset_state = true;
    }

    /// Index of the first frame of the state that is played.
    pub fn start_index(&self, repos: &AllAnimationResource) -> (result: KeyLookUpResult<AnimationIndex>)
        ensures
            match spec_frames_of(repos@, self.sequence@, self.current_state@) {
                Some(found) => result is Ok && result->Ok_0 == found.spec_start(),
                None => result is Err && spec_lookup_failure(
                    repos@,
                    self.sequence@,
                    self.current_state@,
                    result->Err_0,
                ),
            },
    {
        match self.get_current_seq(repos) {
            Ok(animation) => Ok(animation.start()),
            Err(error) => Err(error),
        }
    }

    /// The frames of the state that is played.
    pub fn get_current_seq(&self, repos: &AllAnimationResource) -> (result: KeyLookUpResult<
        AnimationFrames,
    >)
        ensures
            match spec_frames_of(repos@, self.sequence@, self.current_state@) {
                Some(found) => result == Ok::<AnimationFrames, NotFoundError>(found),
                None => result is Err && spec_lookup_failure(
                    repos@,
                    self.sequence@,
                    self.current_state@,
                    result->Err_0,
                ),
            },
    {
        match get_animation_seq(repos, self.sequence.as_str(), self.current_state.as_str()) {
            Ok(found) => Ok(found.1),
            Err(error) => Err(error),
        }
    }

    pub fn sequence(&self) -> (name: &str)
        ensures
            name@ == self.sequence@,
    {
        self.sequence.as_str()
    }

    pub fn current_state(&self) -> (name: &str)
        ensures
            name@ == self.current_state@,
    {
        self.current_state.as_str()
    }

    pub fn duration_for_animation(&self) -> (timer: AnimationTimer)
        ensures
            timer == self.duration_for_animation,
    {
        self.duration_for_animation
    }

    pub fn get_reset_state(&self) -> (asked: bool)
        ensures
            asked == self.reset_state,
    {
        self.reset_state
    }
}

} // verus!
