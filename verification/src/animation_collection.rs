use vstd::prelude::*;
use bevy::asset::UntypedHandle;
use bevy::utils::HashMap;
use crate::animation_altlas::AnimationAltlas;
use crate::animation_error::AnimationError;
use crate::animation_error::NotFoundError;
use crate::animation_frames::spec_region_fits;
use crate::animation_frames::AnimationFrames;
use crate::text_like::TextLike;
use crate::types::AnimationDuration;
use crate::types::AnimationIndex;
use crate::types::AnimationResult;
use crate::types::KeyLookUpResult;

verus! {

/// The frames of one sequence, by state name. The table is bevy's hash map
/// (`bevy::utils::HashMap`, hashbrown's map with a fixed hasher). Verus cannot
/// be told of hashbrown's type itself, whose allocator parameter is bound by
/// a trait without a public name, so the map is kept in this struct, which
/// Verus does not read: what it holds is known through `sequence_frames` alone.
#[verifier::external_body]
pub struct AnimationSequence {
    frames: HashMap<String, AnimationFrames>,
}

/// What a sequence's table holds: the frames under each state name.
pub uninterp spec fn sequence_frames(sequence: AnimationSequence) -> Map<Seq<char>, AnimationFrames>;

/// The table that holds no frames.
pub open spec fn spec_no_frames() -> Map<Seq<char>, AnimationFrames> {
    Map::empty()
}

impl View for AnimationSequence {
    type V = Map<Seq<char>, AnimationFrames>;

    open spec fn view(&self) -> Map<Seq<char>, AnimationFrames> {
        sequence_frames(*self)
    }
}

/// Calls `HashMap::default`: the new table holds nothing.
#[verifier::external_body]
fn table_new() -> (sequence: AnimationSequence)
    ensures
        sequence_frames(sequence) == spec_no_frames(),
{
    AnimationSequence { frames: HashMap::default() }
}

/// Calls `HashMap::insert`: afterwards the table holds `frames` under `key`
/// and is otherwise unchanged; what was held under `key` before, if anything,
/// is returned.
#[verifier::external_body]
fn table_insert(sequence: &mut AnimationSequence, key: String, frames: AnimationFrames) -> (replaced:
    Option<AnimationFrames>)
    ensures
        sequence_frames(*final(sequence)) == sequence_frames(*old(sequence)).insert(key@, frames),
        replaced == if sequence_frames(*old(sequence)).contains_key(key@) {
            Some(sequence_frames(*old(sequence))[key@])
        } else {
            None::<AnimationFrames>
        },
{
    sequence.frames.insert(key, frames)
}

/// Calls `HashMap::get_key_value`: where the table holds frames under `key`,
/// they are returned with the table's own copy of the name, and nothing is
/// returned where it holds none.
#[verifier::external_body]
fn table_get_key_value<'a>(sequence: &'a AnimationSequence, key: &str) -> (found: Option<
    (&'a str, AnimationFrames),
>)
    ensures
        sequence_frames(*sequence).contains_key(key@) ==> found is Some && found->Some_0.0@ == key@
            && found->Some_0.1 == sequence_frames(*sequence)[key@],
        !sequence_frames(*sequence).contains_key(key@) ==> found is None,
{
    sequence.frames.get_key_value(key).map(|(name, frames)| (name.as_str(), *frames))
}

/// Calls `HashMap::keys`: every state name of the table is returned once, in
/// no particular order.
#[verifier::external_body]
fn table_keys(sequence: &AnimationSequence) -> (names: Vec<String>)
    ensures
        forall|name: Seq<char>| #[trigger]
            sequence_frames(*sequence).contains_key(name) <==> spec_holds_name(names@, name),
        spec_names_differ(names@),
{
    sequence.frames.keys().cloned().collect()
}

/// Whether `name` is the text of one of `names`.
pub open spec fn spec_holds_name(names: Seq<String>, name: Seq<char>) -> bool {
    exists|i: int| 0 <= i < names.len() && #[trigger] names[i]@ == name
}

/// Whether no two of `names` have the same text.
pub open spec fn spec_names_differ(names: Seq<String>) -> bool {
    forall|i: int, j: int| 0 <= i < j < names.len() ==> #[trigger] names[i]@ != #[trigger] names[j]@
}

impl AnimationSequence {
    /// A sequence without frames.
    pub fn new() -> (sequence: Self)
        ensures
            sequence@ == spec_no_frames(),
    {
        table_new()
    }

    /// Puts `frames` under `key`, in place of what the sequence held there.
    /// Returns the frames that were replaced, if any.
    pub fn insert(&mut self, key: String, frames: AnimationFrames) -> (replaced: Option<
        AnimationFrames,
    >)
        ensures
            final(self)@ == old(self)@.insert(key@, frames),
            replaced == if old(self)@.contains_key(key@) {
                Some(old(self)@[key@])
            } else {
                None::<AnimationFrames>
            },
    {
        table_insert(self, key, frames)
    }

    /// The frames under `key`, with the sequence's own copy of the name.
    pub fn get_key_value(&self, key: &str) -> (found: Option<(&str, AnimationFrames)>)
        ensures
            self@.contains_key(key@) ==> found is Some && found->Some_0.0@ == key@
                && found->Some_0.1 == self@[key@],
            !self@.contains_key(key@) ==> found is None,
    {
        table_get_key_value(self, key)
    }

    /// The frames under `key`.
    pub fn get(&self, key: &str) -> (found: Option<AnimationFrames>)
        ensures
            found == if self@.contains_key(key@) {
                Some(self@[key@])
            } else {
                None::<AnimationFrames>
            },
    {
        match table_get_key_value(self, key) {
            Some((_, frames)) => Some(frames),
            None => None,
        }
    }

    /// Whether the sequence holds frames under `key`.
    pub fn contains_key(&self, key: &str) -> (held: bool)
        ensures
            held == self@.contains_key(key@),
    {
        table_get_key_value(self, key).is_some()
    }

    /// The state names of the sequence, each once, in no particular order.
    pub fn keys(&self) -> (names: Vec<String>)
        ensures
            forall|name: Seq<char>| #[trigger]
                self@.contains_key(name) <==> spec_holds_name(names@, name),
            spec_names_differ(names@),
    {
        table_keys(self)
    }
}

/// Entries from which a sequence is built: state names with their frames, in
/// the order in which they were added.
pub type AnimationSeqToBuild<'a> = Vec<(TextLike<'a>, AnimationFrames)>;

/// The state names of `entries`, in order.
pub open spec fn spec_entry_names(entries: Seq<(TextLike<'_>, AnimationFrames)>) -> Seq<Seq<char>> {
    Seq::new(entries.len(), |i: int| entries[i].0.spec_text())
}

/// The table that holds the frames of each of `entries` under its name.
pub open spec fn spec_sequence_of(entries: Seq<(TextLike<'_>, AnimationFrames)>) -> Map<
    Seq<char>,
    AnimationFrames,
>
    decreases entries.len(),
{
    if entries.len() == 0 {
        Map::empty()
    } else {
        spec_sequence_of(entries.drop_last()).insert(
            entries.last().0.spec_text(),
            entries.last().1,
        )
    }
}

/// Whether the entry at `position` is the first to repeat the name of an
/// earlier one.
pub open spec fn spec_first_repeat(names: Seq<Seq<char>>, position: int) -> bool {
    &&& 0 <= position < names.len()
    &&& names.take(position).no_duplicates()
    &&& names.take(position).contains(names[position])
}

/// The table built from entries holds frames under exactly their names.
pub proof fn lemma_sequence_of_names(entries: Seq<(TextLike<'_>, AnimationFrames)>)
    ensures
        forall|name: Seq<char>| #[trigger]
            spec_sequence_of(entries).contains_key(name) <==> spec_entry_names(entries).contains(
                name,
            ),
    decreases entries.len(),
{
    let names = spec_entry_names(entries);
    if entries.len() > 0 {
        let front = entries.drop_last();
        lemma_sequence_of_names(front);
        let front_names = spec_entry_names(front);
        let last = entries.len() - 1;
        let last_name = entries.last().0.spec_text();
        assert(names[last] == last_name);
        assert forall|i: int| 0 <= i < front.len() implies #[trigger] front_names[i] == names[i] by {
            assert(front[i] == entries[i]);
        }
        assert forall|name: Seq<char>| #[trigger]
            spec_sequence_of(entries).contains_key(name) <==> names.contains(name) by {
            if spec_sequence_of(entries).contains_key(name) {
                if name == last_name {
                    assert(names[last] == name);
                } else {
                    assert(spec_sequence_of(entries) == spec_sequence_of(front).insert(
                        last_name,
                        entries.last().1,
                    ));
                    assert(spec_sequence_of(front).contains_key(name));
                    assert(front_names.contains(name));
                    let i = choose|i: int| 0 <= i < front_names.len() && front_names[i] == name;
                    assert(names[i] == name);
                }
            }
            if names.contains(name) {
                let i = choose|i: int| 0 <= i < names.len() && names[i] == name;
                if i < last {
                    assert(front_names[i] == name);
                    assert(front_names.contains(name));
                    assert(spec_sequence_of(front).contains_key(name));
                }
            }
        }
    }
}

/// Where no name occurs twice, the table built from entries holds under each
/// entry's name that entry's frames.
pub proof fn lemma_sequence_of_frames(entries: Seq<(TextLike<'_>, AnimationFrames)>, position: int)
    requires
        spec_entry_names(entries).no_duplicates(),
        0 <= position < entries.len(),
    ensures
        spec_sequence_of(entries).contains_key(entries[position].0.spec_text()),
        spec_sequence_of(entries)[entries[position].0.spec_text()] == entries[position].1,
    decreases entries.len(),
{
    let names = spec_entry_names(entries);
    let front = entries.drop_last();
    let front_names = spec_entry_names(front);
    if position < entries.len() - 1 {
        assert forall|i: int, j: int|
            0 <= i < front_names.len() && 0 <= j < front_names.len() && i
                != j implies #[trigger] front_names[i] != #[trigger] front_names[j] by {
            assert(names[i] == front_names[i]);
            assert(names[j] == front_names[j]);
        }
        lemma_sequence_of_frames(front, position);
        assert(names[position] != names[entries.len() - 1]);
    }
}

/// Builds the table of a sequence from its entries. A state name may occur
/// once only: the first entry that repeats an earlier name is reported, and no
/// table is built.
pub fn to_build_to_ani_seq<'a>(to_convert: AnimationSeqToBuild<'a>) -> (result: AnimationResult<
    AnimationSequence,
>)
    ensures
        spec_entry_names(to_convert@).no_duplicates() ==> result is Ok && result->Ok_0@
            == spec_sequence_of(to_convert@),
        !spec_entry_names(to_convert@).no_duplicates() ==> result is Err,
        result matches Err(error) ==> error matches AnimationError::DuplicateStateProvided(name)
            && exists|position: int|
            spec_first_repeat(spec_entry_names(to_convert@), position) && name@
                == #[trigger] spec_entry_names(to_convert@)[position],
{
    let ghost names = spec_entry_names(to_convert@);
    let mut sequence = AnimationSequence::new();
    let mut i: usize = 0;
    while i < to_convert.len()
        invariant
            0 <= i <= to_convert.len(),
            names == spec_entry_names(to_convert@),
            names.take(i as int).no_duplicates(),
            sequence@ == spec_sequence_of(to_convert@.take(i as int)),
        decreases to_convert.len() - i,
    {
        let name = to_convert[i].0.as_str();
        let frames = to_convert[i].1;
        proof {
            let done = to_convert@.take(i as int);
            lemma_sequence_of_names(done);
            assert(spec_entry_names(done) =~= names.take(i as int));
            assert(names[i as int] == name@);
            assert(to_convert@.take(i + 1).drop_last() =~= done);
            assert(to_convert@.take(i + 1).last() == to_convert@[i as int]);
        }
        if sequence.contains_key(name) {
            proof {
                assert(spec_first_repeat(names, i as int));
                assert(names.take(i as int)[0] == names[0]);
                let j = choose|j: int|
                    0 <= j < names.take(i as int).len() && names.take(i as int)[j] == names[i as int];
                assert(names[j] == names[i as int]);
            }
            return Err(AnimationError::DuplicateStateProvided(name.to_owned()));
        }
        proof {
            let grown = names.take(i + 1);
            assert forall|a: int, b: int|
                0 <= a < grown.len() && 0 <= b < grown.len() && a != b implies #[trigger] grown[a]
                != #[trigger] grown[b] by {
                if a < i && b < i {
                    assert(names.take(i as int)[a] != names.take(i as int)[b]);
                } else if a < i {
                    assert(names.take(i as int)[a] == names[a]);
                    assert(names.take(i as int).contains(names[a]));
                } else if b < i {
                    assert(names.take(i as int)[b] == names[b]);
                    assert(names.take(i as int).contains(names[b]));
                }
            }
        }
        sequence.insert(name.to_owned(), frames);
        i = i + 1;
    }
    proof {
        assert(to_convert@.take(i as int) =~= to_convert@);
        assert(names.take(i as int) =~= names);
    }
    Ok(sequence)
}

/// One sequence as the repository keeps it: the atlas its frames are cut
/// from, the state an entity starts in, and the frames of each state. The
/// start state is always one of the states that have frames.
pub struct AnimationCollection {
    meta: AnimationAltlas,
    start_state: String,
    frames: AnimationSequence,
}

/// What a lookup of `key` in `frames` gives: the frames held under it, or the
/// report that none are.
pub open spec fn spec_frames_under(
    frames: Map<Seq<char>, AnimationFrames>,
    key: Seq<char>,
    result: KeyLookUpResult<AnimationFrames>,
) -> bool {
    if frames.contains_key(key) {
        result == Ok::<AnimationFrames, NotFoundError>(frames[key])
    } else {
        result matches Err(NotFoundError::SingleAnimation(missing)) && missing@ == key
    }
}

/// What replacing the frames of the collection `before` by `new_seq` owes:
/// where the new table has frames for the start state, the collection has the
/// new table and is otherwise as before; where it has none, the collection
/// stays as it is and the start state is reported.
pub open spec fn spec_frames_set(
    before: AnimationCollection,
    new_seq: AnimationSequence,
    after: AnimationCollection,
    result: Result<(), NotFoundError>,
) -> bool {
    if new_seq@.contains_key(before.spec_start_state()) {
        &&& result is Ok
        &&& after.spec_frames() == new_seq
        &&& after.spec_meta() == before.spec_meta()
        &&& after.spec_start_state() == before.spec_start_state()
    } else {
        &&& after == before
        &&& result matches Err(NotFoundError::SingleAnimation(missing))
        &&& missing@ == before.spec_start_state()
    }
}

impl AnimationCollection {
    #[verifier::type_invariant]
    spec fn holds_start_state(self) -> bool {
        self.frames@.contains_key(self.start_state@)
    }

    /// The atlas with its layout.
    pub closed spec fn spec_meta(&self) -> AnimationAltlas {
        self.meta
    }

    /// Name of the state an entity starts in.
    pub closed spec fn spec_start_state(&self) -> Seq<char> {
        self.start_state@
    }

    /// The frames of each state.
    pub closed spec fn spec_frames(&self) -> AnimationSequence {
        self.frames
    }

    /// The atlas the frames are cut from, with its layout.
    pub fn meta(&self) -> (meta: &AnimationAltlas)
        ensures
            *meta == self.spec_meta(),
    {
        &self.meta
    }

    /// A handle to the atlas the frames are cut from.
    pub fn atlas(&self) -> (atlas: UntypedHandle)
        ensures
            atlas == self.spec_meta().spec_atlas(),
    {
        self.meta.atlas()
    }

    /// The frames of each state.
    pub fn frames(&self) -> (frames: &AnimationSequence)
        ensures
            *frames == self.spec_frames(),
    {
        &self.frames
    }

    /// The frames of the state `key`.
    pub fn get_frames_under(&self, key: &str) -> (result: Result<AnimationFrames, NotFoundError>)
        ensures
            spec_frames_under(self.spec_frames()@, key@, result),
    {
        match self.frames.get(key) {
            Some(frames) => Ok(frames),
            None => Err(NotFoundError::SingleAnimation(key.to_owned())),
        }
    }

    /// Replaces the frames of every state at once. The atlas and the start
    /// state stay as they are. A table without frames for the start state is
    /// refused: the collection then keeps the frames it has.
    pub fn set_frames(&mut self, new_seq: AnimationSequence) -> (result: Result<(), NotFoundError>)
        ensures
            spec_frames_set(*old(self), new_seq, *final(self), result),
    {
        if !new_seq.contains_key(self.start_state.as_str()) {
            return Err(NotFoundError::SingleAnimation(self.start_state.clone()));
        }
        self.frames = new_seq;
        Ok(())
    }

    /// Name of the state an entity starts in: a state that has frames.
    pub fn start_state(&self) -> (name: &str)
        ensures
            name@ == self.spec_start_state(),
            self.spec_frames()@.contains_key(name@),
    {
        proof {
            use_type_invariant(self);
        }
        self.start_state.as_str()
    }

    /// The frames of the state `key`, with the collection's own copy of the name.
    pub fn key_and_frames_under(&self, key: &str) -> (result: KeyLookUpResult<(&str, AnimationFrames)>)
        ensures
            self.spec_frames()@.contains_key(key@) ==> result is Ok && result->Ok_0.0@ == key@
                && result->Ok_0.1 == self.spec_frames()@[key@],
            !self.spec_frames()@.contains_key(key@) ==> (result matches Err(
                NotFoundError::SingleAnimation(missing),
            ) && missing@ == key@),
    {
        match self.frames.get_key_value(key) {
            Some(found) => Ok(found),
            None => Err(NotFoundError::SingleAnimation(key.to_owned())),
        }
    }
}

/// Collects the states of a sequence, then builds its table.
pub struct AnimationSequenceBuilder<'a>(pub AnimationSeqToBuild<'a>);

impl<'a> AnimationSequenceBuilder<'a> {
    /// A builder without states.
    pub fn new() -> (builder: Self)
        ensures
            builder.0@ == Seq::<(TextLike<'a>, AnimationFrames)>::empty(),
    {
        AnimationSequenceBuilder(Vec::new())
    }

    /// Adds the state `key` with its frames.
    pub fn add_animation(self, key: TextLike<'a>, frames: AnimationFrames) -> (builder: Self)
        ensures
            builder.0@ == self.0@.push((key, frames)),
    {
        let mut builder = self;
        builder.0.push((key, frames));
        builder
    }

    /// Adds the state `key` whose frames are the whole of one row of the
    /// atlas, repeated for ever.
    pub fn add_row_ani(
        self,
        key: TextLike<'a>,
        row: AnimationIndex,
        time: AnimationDuration,
        meta: &AnimationAltlas,
    ) -> (builder: Self)
        requires
            spec_region_fits(row, None, None, None, meta.spec_data().columns),
        ensures
            builder.0@.len() == self.0@.len() + 1,
            builder.0@.drop_last() == self.0@,
            builder.0@.last().0 == key,
            builder.0@.last().1.spec_start() == row * meta.spec_data().columns,
            builder.0@.last().1.spec_end() == if meta.spec_data().columns == 0 {
                0
            } else {
                row * meta.spec_data().columns + meta.spec_data().columns - 1
            },
            builder.0@.last().1.spec_time() == time,
            builder.0@.last().1.spec_is_infinite(),
    {
        let columns = meta.data().columns();
        let mut builder = self;
        if let Ok(animation_frames) = AnimationFrames::from_row(row, time, columns, true) {
            builder.0.push((key, animation_frames));
            proof {
                assert(builder.0@.drop_last() =~= self.0@);
            }
        }
        builder
    }

    /// Builds the table. Fails where a state name was added twice.
    pub fn build(self) -> (result: AnimationResult<AnimationSequence>)
        ensures
            spec_entry_names(self.0@).no_duplicates() ==> result is Ok && result->Ok_0@
                == spec_sequence_of(self.0@),
            !spec_entry_names(self.0@).no_duplicates() ==> result is Err,
            result matches Err(error) ==> error matches AnimationError::DuplicateStateProvided(name)
                && exists|position: int|
                spec_first_repeat(spec_entry_names(self.0@), position) && name@
                    == #[trigger] spec_entry_names(self.0@)[position],
    {
        to_build_to_ani_seq(self.0)
    }
}

/// Collects the states of a sequence over one atlas, then builds the
/// collection that the repository keeps.
pub struct AnimationCollectionBuilder<'a> {
    meta: AnimationAltlas,
    frames: AnimationSequenceBuilder<'a>,
}

/// What building a collection gives for its `entries` and `start_state`: the
/// table of the entries, unless a name occurs twice among them or none of
/// them has the name of the start state.
pub open spec fn spec_collection_built(
    entries: Seq<(TextLike<'_>, AnimationFrames)>,
    start_state: Seq<char>,
    meta: AnimationAltlas,
    result: AnimationResult<AnimationCollection>,
) -> bool {
    let names = spec_entry_names(entries);
    if !names.no_duplicates() {
        result matches Err(AnimationError::DuplicateStateProvided(name)) && exists|position: int|
            spec_first_repeat(names, position) && name@ == #[trigger] names[position]
    } else if !names.contains(start_state) {
        result matches Err(AnimationError::NotFound(NotFoundError::SingleAnimation(name))) && name@
            == start_state
    } else {
        &&& result is Ok
        &&& result->Ok_0.spec_frames()@ == spec_sequence_of(entries)
        &&& result->Ok_0.spec_start_state() == start_state
        &&& result->Ok_0.spec_meta() == meta
    }
}

impl<'a> AnimationCollectionBuilder<'a> {
    /// The atlas the states are cut from.
    pub closed spec fn spec_meta(&self) -> AnimationAltlas {
        self.meta
    }

    /// The states added so far, in order.
    pub closed spec fn spec_entries(&self) -> Seq<(TextLike<'a>, AnimationFrames)> {
        self.frames.0@
    }

    /// A builder without states over the atlas `meta`.
    pub fn new(meta: AnimationAltlas) -> (builder: Self)
        ensures
            builder.spec_meta() == meta,
            builder.spec_entries() == Seq::<(TextLike<'a>, AnimationFrames)>::empty(),
    {
        Self { meta, frames: AnimationSequenceBuilder::new() }
    }

    /// Adds the state `key` with its frames.
    pub fn add_animation(self, key: TextLike<'a>, frames: AnimationFrames) -> (builder: Self)
        ensures
            builder.spec_meta() == self.spec_meta(),
            builder.spec_entries() == self.spec_entries().push((key, frames)),
    {
        Self { meta: self.meta, frames: self.frames.add_animation(key, frames) }
    }

    /// Adds the state `key` whose frames are the whole of one row of the
    /// atlas, repeated for ever.
    pub fn add_row_ani(self, key: TextLike<'a>, row: AnimationIndex, time: AnimationDuration) -> (builder:
        Self)
        requires
            spec_region_fits(row, None, None, None, self.spec_meta().spec_data().columns),
        ensures
            builder.spec_meta() == self.spec_meta(),
            builder.spec_entries().len() == self.spec_entries().len() + 1,
            builder.spec_entries().drop_last() == self.spec_entries(),
            builder.spec_entries().last().0 == key,
            builder.spec_entries().last().1.spec_start() == row
                * self.spec_meta().spec_data().columns,
            builder.spec_entries().last().1.spec_end() == if self.spec_meta().spec_data().columns
                == 0 {
                0
            } else {
                row * self.spec_meta().spec_data().columns + self.spec_meta().spec_data().columns
                    - 1
            },
            builder.spec_entries().last().1.spec_time() == time,
            builder.spec_entries().last().1.spec_is_infinite(),
    {
        let frames = self.frames.add_row_ani(key, row, time, &self.meta);
        Self { meta: self.meta, frames }
    }

    /// Builds the collection with `start_state` as the state an entity
    /// starts in. Fails where a state name was added twice, and where no
    /// state with the name of the start state was added.
    pub fn build(self, start_state: TextLike<'a>) -> (result: AnimationResult<AnimationCollection>)
        ensures
            spec_collection_built(
                self.spec_entries(),
                start_state.spec_text(),
                self.spec_meta(),
                result,
            ),
    {
        let ghost entries = self.spec_entries();
        let frames = match self.frames.build() {
            Ok(frames) => frames,
            Err(error) => {
                return Err(error);
            },
        };
        proof {
            lemma_sequence_of_names(entries);
        }
        let start_state = start_state.into_registered_name();
        if !frames.contains_key(start_state.as_str()) {
            return Err(AnimationError::NotFound(NotFoundError::SingleAnimation(start_state)));
        }
        Ok(AnimationCollection { meta: self.meta, start_state, frames })
    }
}

} // verus!
