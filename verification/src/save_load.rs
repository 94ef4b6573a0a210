use vstd::prelude::*;
use bevy::asset::UntypedHandle;
use crate::animation_altlas::AnimationAltlasMeta;
use crate::animation_collection::spec_collection_built;
use crate::animation_collection::spec_entry_names;
use crate::animation_collection::spec_first_repeat;
use crate::animation_collection::spec_sequence_of;
use crate::animation_collection::AnimationCollection;
use crate::animation_collection::AnimationCollectionBuilder;
use crate::animation_collection::AnimationSequence;
use crate::animation_collection::AnimationSequenceBuilder;
use crate::animation_error::AnimationError;
use crate::animation_error::NegativeAnimationTime;
use crate::animation_frames::region_fits;
use crate::animation_frames::spec_end_row_or_default;
use crate::animation_frames::spec_region_fits;
use crate::animation_frames::AnimationFrames;
use crate::pos_scale_factor::PosScaleFactor;
use crate::text_like::TextLike;
use crate::types::AnimationDuration;
use crate::types::AnimationIndex;
use crate::types::AnimationResult;

verus! {

/// Nanoseconds in one millionth of a second.
pub const NANOS_PER_MICRO: u64 = 1_000;

/// Description of one state as it is read from a file: a region of the grid,
/// and optionally the time, in nanoseconds, that one pass over it is given.
#[derive(Debug, Clone)]
pub struct FramesSerde {
    pub name: String,
    pub start_row: usize,
    pub start_column: Option<usize>,
    pub end_row: Option<usize>,
    pub end_column: Option<usize>,
    pub time_nanos: Option<i64>,
    pub infinite: bool,
}

/// Description of a sequence as it is read from a file: its states, the
/// state an entity starts in, the layout of the atlas, and optionally a name
/// for the sequence and a time, in nanoseconds, for the states that name none.
#[derive(Debug, Clone)]
pub struct AnimationAssets {
    pub init_name: Option<String>,
    pub start_state: String,
    pub frames: Vec<FramesSerde>,
    pub time_nanos: Option<i64>,
    pub general: AnimationAltlasMeta,
}

/// A number of seconds, given as a scale, in nanoseconds; the longest time
/// that a description can name where it would pass it.
pub open spec fn spec_scale_as_nanos(seconds: PosScaleFactor) -> int {
    if seconds.millionths * NANOS_PER_MICRO > i64::MAX {
        i64::MAX as int
    } else {
        seconds.millionths * NANOS_PER_MICRO
    }
}

/// The time of a state in nanoseconds as its description gives it: its own
/// where it names one, else the sequence's, else the default.
pub open spec fn spec_described_time(
    own: Option<i64>,
    shared: Option<i64>,
    default_ani_duration: PosScaleFactor,
) -> int {
    match own {
        Some(own) => own as int,
        None => match shared {
            Some(shared) => shared as int,
            None => spec_scale_as_nanos(default_ani_duration),
        },
    }
}

/// A number of seconds, given as a scale, in nanoseconds.
pub fn scale_as_nanos(seconds: PosScaleFactor) -> (nanos: i64)
    ensures
        nanos == spec_scale_as_nanos(seconds),
{
    let millionths = seconds.to_value();
    if millionths > (i64::MAX as u64) / NANOS_PER_MICRO {
        i64::MAX
    } else {
        (millionths * NANOS_PER_MICRO) as i64
    }
}

/// Accepts `raw` nanoseconds as a duration, unless the number is negative.
pub fn to_animation_duration(raw: i64) -> (result: Result<AnimationDuration, NegativeAnimationTime>)
    ensures
        raw >= 0 ==> result == Ok::<AnimationDuration, NegativeAnimationTime>(
            AnimationDuration { nanos: raw as u64 },
        ),
        raw < 0 ==> result == Err::<AnimationDuration, NegativeAnimationTime>(
            NegativeAnimationTime(raw),
        ),
{
    if raw < 0 {
        Err(NegativeAnimationTime(raw))
    } else {
        Ok(AnimationDuration::from_nanos(raw as u64))
    }
}

impl FramesSerde {
    /// Whether the corners of the described region have indices that a
    /// machine word holds, in a grid with `columns` columns.
    pub open spec fn spec_fits(&self, columns: AnimationIndex) -> bool {
        self.start_row <= spec_end_row_or_default(self.start_row, self.end_row)
            ==> spec_region_fits(
            self.start_row,
            self.start_column,
            self.end_row,
            self.end_column,
            columns,
        )
    }

    /// The frames that the description gives in a sequence with the time
    /// `shared` and a grid of `columns` columns: a negative time is refused
    /// before the region is looked at.
    pub open spec fn spec_animation_frames(
        &self,
        shared: Option<i64>,
        columns: AnimationIndex,
        default_ani_duration: PosScaleFactor,
    ) -> AnimationResult<AnimationFrames> {
        let raw = spec_described_time(self.time_nanos, shared, default_ani_duration);
        if raw < 0 {
            Err(AnimationError::NegativeAnimationTime(NegativeAnimationTime(raw as i64)))
        } else {
            match AnimationFrames::spec_new(
                self.start_row,
                self.start_column,
                self.end_row,
                self.end_column,
                AnimationDuration { nanos: raw as u64 },
                columns,
                self.infinite,
            ) {
                Ok(frames) => Ok(frames),
                Err(error) => Err(AnimationError::InvalidFrames(error)),
            }
        }
    }

    /// Whether the corners of the described region have indices that a
    /// machine word holds, in a grid with `columns` columns.
    pub fn fits(&self, columns: AnimationIndex) -> (fits: bool)
        ensures
            fits == self.spec_fits(columns),
    {
        let end_row = match self.end_row {
            Some(end_row) => end_row,
            None => self.start_row,
        };
        self.start_row > end_row || region_fits(
            self.start_row,
            self.start_column,
            self.end_row,
            self.end_column,
            columns,
        )
    }

    pub fn name(&self) -> (name: &str)
        ensures
            name@ == self.name@,
    {
        self.name.as_str()
    }

    pub fn clone_name(&self) -> (name: String)
        ensures
            name == self.name,
    {
        self.name.clone()
    }

    /// Turns the description into frames, for a state of the sequence that
    /// `sequence_meta` describes.
    pub fn to_animation_frames(
        &self,
        sequence_meta: &AnimationAssets,
        default_ani_duration: PosScaleFactor,
    ) -> (result: AnimationResult<AnimationFrames>)
        requires
            self.spec_fits(sequence_meta.general.columns),
        ensures
            result == self.spec_animation_frames(
                sequence_meta.time_nanos,
                sequence_meta.general.columns,
                default_ani_duration,
            ),
    {
        let raw = match self.time_nanos {
            Some(own) => own,
            None => match sequence_meta.time() {
                Some(shared) => shared,
                None => scale_as_nanos(default_ani_duration),
            },
        };
        let time = match to_animation_duration(raw) {
            Ok(time) => time,
            Err(error) => {
                return Err(AnimationError::NegativeAnimationTime(error));
            },
        };
        let columns = sequence_meta.columns();
        match AnimationFrames::new(
            self.start_row,
            self.start_column,
            self.end_row,
            self.end_column,
            time,
            columns,
            self.infinite,
        ) {
            Ok(frames) => Ok(frames),
            Err(error) => Err(AnimationError::InvalidFrames(error)),
        }
    }
}

/// Whether the description at `position` is the first whose frames cannot be
/// had.
pub open spec fn spec_first_failure(converted: Seq<AnimationResult<AnimationFrames>>, position: int) -> bool {
    &&& 0 <= position < converted.len()
    &&& converted[position] is Err
    &&& forall|earlier: int| 0 <= earlier < position ==> (#[trigger] converted[earlier]) is Ok
}

impl AnimationAssets {
    /// Whether every described region has corners with indices that a machine
    /// word holds.
    pub open spec fn spec_fits(&self) -> bool {
        forall|i: int|
            0 <= i < self.frames@.len() ==> (#[trigger] self.frames@[i]).spec_fits(
                self.general.columns,
            )
    }

    /// What each state's description gives, in their order.
    pub open spec fn spec_converted(&self, default_ani_duration: PosScaleFactor) -> Seq<
        AnimationResult<AnimationFrames>,
    > {
        Seq::new(
            self.frames@.len(),
            |i: int|
                self.frames@[i].spec_animation_frames(
                    self.time_nanos,
                    self.general.columns,
                    default_ani_duration,
                ),
        )
    }

    /// The states with their frames, in their order, where every description
    /// gives frames.
    pub open spec fn spec_entries(&self, default_ani_duration: PosScaleFactor) -> Seq<
        (TextLike<'static>, AnimationFrames),
    > {
        Seq::new(
            self.frames@.len(),
            |i: int|
                (
                    TextLike::Owned(self.frames@[i].name),
                    self.spec_converted(default_ani_duration)[i]->Ok_0,
                ),
        )
    }

    /// What turning the description into a table of frames gives: the error
    /// of the first state whose frames cannot be had; else the table of all
    /// the states, unless a name occurs twice among them.
    pub open spec fn spec_ani_seq(
        &self,
        default_ani_duration: PosScaleFactor,
        result: AnimationResult<AnimationSequence>,
    ) -> bool {
        let converted = self.spec_converted(default_ani_duration);
        let entries = self.spec_entries(default_ani_duration);
        let names = spec_entry_names(entries);
        if exists|position: int| spec_first_failure(converted, position) {
            exists|position: int| #[trigger]
                spec_first_failure(converted, position) && result == Err::<
                    AnimationSequence,
                    AnimationError,
                >(converted[position]->Err_0)
        } else if !names.no_duplicates() {
            result matches Err(AnimationError::DuplicateStateProvided(name)) && exists|position: int|
                spec_first_repeat(names, position) && name@ == #[trigger] names[position]
        } else {
            result is Ok && result->Ok_0@ == spec_sequence_of(entries)
        }
    }

    /// What turning the description into a collection over `atlas` gives: the
    /// error of the first state whose frames cannot be had; else what
    /// building the collection from all the states gives.
    pub open spec fn spec_animation_collection(
        &self,
        atlas: UntypedHandle,
        default_ani_duration: PosScaleFactor,
        result: AnimationResult<AnimationCollection>,
    ) -> bool {
        let converted = self.spec_converted(default_ani_duration);
        if exists|position: int| spec_first_failure(converted, position) {
            exists|position: int| #[trigger]
                spec_first_failure(converted, position) && result == Err::<
                    AnimationCollection,
                    AnimationError,
                >(converted[position]->Err_0)
        } else {
            exists|meta: crate::animation_altlas::AnimationAltlas|
                meta.spec_data() == self.general && meta.spec_atlas() == atlas
                    && #[trigger] spec_collection_built(
                    self.spec_entries(default_ani_duration),
                    self.start_state@,
                    meta,
                    result,
                )
        }
    }

    /// Whether every described region has corners with indices that a machine
    /// word holds.
    pub fn fits(&self) -> (fits: bool)
        ensures
            fits == self.spec_fits(),
    {
        let mut i: usize = 0;
        while i < self.frames.len()
            invariant
                0 <= i <= self.frames.len(),
                forall|j: int|
                    0 <= j < i ==> (#[trigger] self.frames@[j]).spec_fits(self.general.columns),
            decreases self.frames.len() - i,
        {
            if !self.frames[i].fits(self.general.columns()) {
                return false;
            }
            i = i + 1;
        }
        true
    }

    /// Builds the collection that the description describes, over the atlas
    /// that has been made from its layout and registered under `atlas`.
    pub fn to_animaton_collection(
        &self,
        atlas: UntypedHandle,
        default_ani_duration: PosScaleFactor,
    ) -> (result: AnimationResult<AnimationCollection>)
        requires
            self.spec_fits(),
        ensures
            self.spec_animation_collection(atlas, default_ani_duration, result),
    {
        let ghost converted = self.spec_converted(default_ani_duration);
        let ghost entries = self.spec_entries(default_ani_duration);
        let meta = self.general.build(atlas);
        let mut collection = AnimationCollectionBuilder::new(meta);
        let mut i: usize = 0;
        while i < self.frames.len()
            invariant
                0 <= i <= self.frames.len(),
                self.spec_fits(),
                converted == self.spec_converted(default_ani_duration),
                entries == self.spec_entries(default_ani_duration),
                collection.spec_meta() == meta,
                collection.spec_entries() == entries.take(i as int),
                forall|j: int| 0 <= j < i ==> (#[trigger] converted[j]) is Ok,
            decreases self.frames.len() - i,
        {
            let to_split = &self.frames[i];
            let frames = match to_split.to_animation_frames(self, default_ani_duration) {
                Ok(frames) => frames,
                Err(error) => {
                    proof {
                        assert(spec_first_failure(converted, i as int));
                    }
                    return Err(error);
                },
            };
            collection = collection.add_animation(TextLike::Owned(to_split.clone_name()), frames);
            proof {
                assert(entries.take(i + 1) =~= entries.take(i as int).push(entries[i as int]));
            }
            i = i + 1;
        }
        proof {
            assert(entries.take(i as int) =~= entries);
        }
        collection.build(TextLike::Ref(self.start_state.as_str()))
    }

    /// Builds the table of frames that the description describes.
    pub fn to_ani_seq(&self, default_ani_duration: PosScaleFactor) -> (result: AnimationResult<
        AnimationSequence,
    >)
        requires
            self.spec_fits(),
        ensures
            self.spec_ani_seq(default_ani_duration, result),
    {
        let ghost converted = self.spec_converted(default_ani_duration);
        let ghost entries = self.spec_entries(default_ani_duration);
        let mut seq = AnimationSequenceBuilder::new();
        let mut i: usize = 0;
        while i < self.frames.len()
            invariant
                0 <= i <= self.frames.len(),
                self.spec_fits(),
                converted == self.spec_converted(default_ani_duration),
                entries == self.spec_entries(default_ani_duration),
                seq.0@ == entries.take(i as int),
                forall|j: int| 0 <= j < i ==> (#[trigger] converted[j]) is Ok,
            decreases self.frames.len() - i,
        {
            let to_split = &self.frames[i];
            let frames = match to_split.to_animation_frames(self, default_ani_duration) {
                Ok(frames) => frames,
                Err(error) => {
                    proof {
                        assert(spec_first_failure(converted, i as int));
                    }
                    return Err(error);
                },
            };
            seq = seq.add_animation(TextLike::Owned(to_split.clone_name()), frames);
            proof {
                assert(entries.take(i + 1) =~= entries.take(i as int).push(entries[i as int]));
            }
            i = i + 1;
        }
        proof {
            assert(entries.take(i as int) =~= entries);
        }
        seq.build()
    }

    pub fn start_state(&self) -> (name: &str)
        ensures
            name@ == self.start_state@,
    {
        self.start_state.as_str()
    }

    pub fn name(&self) -> (name: Option<&str>)
        ensures
            match self.init_name {
                Some(init_name) => name is Some && name->Some_0@ == init_name@,
                None => name is None,
            },
    {
        match &self.init_name {
            Some(init_name) => Some(init_name.as_str()),
            None => None,
        }
    }

    pub fn columns(&self) -> (columns: AnimationIndex)
        ensures
            columns == self.general.columns,
    {
        self.general.columns()
    }

    pub fn time(&self) -> (time: Option<i64>)
        ensures
            time == self.time_nanos,
    {
        self.time_nanos
    }
}

} // verus!
