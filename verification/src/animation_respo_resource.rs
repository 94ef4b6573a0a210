use vstd::prelude::*;
use bevy::utils::HashMap;
use bevy::asset::UntypedHandle;
use crate::animation_collection::spec_holds_name;
use crate::animation_collection::spec_names_differ;
use crate::animation_collection::AnimationCollection;
use crate::animation_collection::AnimationSequence;
use crate::animation_comp::AnimationComp;
use crate::animation_comp::AnimationTimer;
use crate::animation_time_factor::AnimationTimeScale;
use crate::save_load::AnimationAssets;
use crate::sprite_animation_bundle::SpriteAnimationBundle;
use crate::types::AnimationDuration;
use crate::types::KeyLookUpResult;
use crate::animation_error::AnimationError;
use crate::animation_error::NotFoundError;
use crate::pos_scale_factor::PosScaleFactor;
use crate::text_like::TextLike;
use crate::types::AnimationResult;

verus! {

/// The sequences that have been registered, by name. The table is bevy's hash
/// map (`bevy::utils::HashMap`, hashbrown's map with a fixed hasher). Verus
/// cannot be told of hashbrown's type itself, whose allocator parameter is
/// bound by a trait without a public name, so the map is kept in this struct,
/// which Verus does not read: what it holds is known through
/// `repository_collections` alone.
#[verifier::external_body]
pub struct AnimationRepository {
    sequences: HashMap<String, AnimationCollection>,
}

/// What a repository's table holds: the collection under each sequence name.
pub uninterp spec fn repository_collections(repository: AnimationRepository) -> Map<
    Seq<char>,
    AnimationCollection,
>;

/// The table that holds no collection.
pub open spec fn spec_no_collections() -> Map<Seq<char>, AnimationCollection> {
    Map::empty()
}

impl View for AnimationRepository {
    type V = Map<Seq<char>, AnimationCollection>;

    open spec fn view(&self) -> Map<Seq<char>, AnimationCollection> {
        repository_collections(*self)
    }
}

/// Calls `HashMap::default`: the new table holds nothing.
#[verifier::external_body]
fn table_new() -> (repository: AnimationRepository)
    ensures
        repository_collections(repository) == spec_no_collections(),
{
    AnimationRepository { sequences: HashMap::default() }
}

/// Calls `HashMap::insert`: afterwards the table holds `collection` under
/// `key` and is otherwise unchanged; what was held under `key` before, if
/// anything, is returned.
#[verifier::external_body]
fn table_insert(
    repository: &mut AnimationRepository,
    key: String,
    collection: AnimationCollection,
) -> (replaced: Option<AnimationCollection>)
    ensures
        repository_collections(*final(repository)) == repository_collections(
            *old(repository),
        ).insert(key@, collection),
        replaced == if repository_collections(*old(repository)).contains_key(key@) {
            Some(repository_collections(*old(repository))[key@])
        } else {
            None::<AnimationCollection>
        },
{
    repository.sequences.insert(key, collection)
}

/// Calls `HashMap::get_key_value`: where the table holds a collection under
/// `key`, it is returned with the table's own copy of the name, and nothing is
/// returned where it holds none.
#[verifier::external_body]
fn table_get_key_value<'a>(repository: &'a AnimationRepository, key: &str) -> (found: Option<
    (&'a str, &'a AnimationCollection),
>)
    ensures
        repository_collections(*repository).contains_key(key@) ==> found is Some
            && found->Some_0.0@ == key@ && *found->Some_0.1 == repository_collections(
            *repository,
        )[key@],
        !repository_collections(*repository).contains_key(key@) ==> found is None,
{
    repository.sequences.get_key_value(key).map(|(name, collection)| (name.as_str(), collection))
}

/// Calls `HashMap::remove_entry`: where the table holds a collection under
/// `key`, it leaves the table and is returned with the table's copy of the
/// name; where it holds none, nothing is returned and the table is unchanged.
#[verifier::external_body]
fn table_remove_entry(repository: &mut AnimationRepository, key: &str) -> (removed: Option<
    (String, AnimationCollection),
>)
    ensures
        repository_collections(*final(repository)) == repository_collections(
            *old(repository),
        ).remove(key@),
        repository_collections(*old(repository)).contains_key(key@) ==> removed is Some
            && removed->Some_0.0@ == key@ && removed->Some_0.1 == repository_collections(
            *old(repository),
        )[key@],
        !repository_collections(*old(repository)).contains_key(key@) ==> removed is None,
{
    repository.sequences.remove_entry(key)
}

/// Calls `HashMap::keys`: every sequence name of the table is returned once,
/// in no particular order.
#[verifier::external_body]
fn table_keys(repository: &AnimationRepository) -> (names: Vec<String>)
    ensures
        forall|name: Seq<char>| #[trigger]
            repository_collections(*repository).contains_key(name) <==> spec_holds_name(
                names@,
                name,
            ),
        spec_names_differ(names@),
{
    repository.sequences.keys().cloned().collect()
}

impl AnimationRepository {
    /// A repository without sequences.
    pub fn new() -> (repository: Self)
        ensures
            repository@ == spec_no_collections(),
    {
        table_new()
    }

    /// Puts `collection` under `key`, in place of what the repository held
    /// there. Returns the collection that was replaced, if any.
    pub fn insert(&mut self, key: String, collection: AnimationCollection) -> (replaced: Option<
        AnimationCollection,
    >)
        ensures
            final(self)@ == old(self)@.insert(key@, collection),
            replaced == if old(self)@.contains_key(key@) {
                Some(old(self)@[key@])
            } else {
                None::<AnimationCollection>
            },
    {
        table_insert(self, key, collection)
    }

    /// The collection under `key`, with the repository's own copy of the name.
    pub fn get_key_value(&self, key: &str) -> (found: Option<(&str, &AnimationCollection)>)
        ensures
            self@.contains_key(key@) ==> found is Some && found->Some_0.0@ == key@
                && *found->Some_0.1 == self@[key@],
            !self@.contains_key(key@) ==> found is None,
    {
        table_get_key_value(self, key)
    }

    /// The collection under `key`.
    pub fn get(&self, key: &str) -> (found: Option<&AnimationCollection>)
        ensures
            self@.contains_key(key@) ==> found is Some && *found->Some_0 == self@[key@],
            !self@.contains_key(key@) ==> found is None,
    {
        match table_get_key_value(self, key) {
            Some((_, collection)) => Some(collection),
            None => None,
        }
    }

    /// The names of the sequences, each once, in no particular order.
    pub fn keys(&self) -> (names: Vec<String>)
        ensures
            forall|name: Seq<char>| #[trigger]
                self@.contains_key(name) <==> spec_holds_name(names@, name),
            spec_names_differ(names@),
    {
        table_keys(self)
    }

    /// Takes the collection under `key` out of the repository, with the
    /// repository's copy of the name.
    pub fn remove_entry(&mut self, key: &str) -> (removed: Option<(String, AnimationCollection)>)
        ensures
            final(self)@ == old(self)@.remove(key@),
            old(self)@.contains_key(key@) ==> removed is Some && removed->Some_0.0@ == key@
                && removed->Some_0.1 == old(self)@[key@],
            !old(self)@.contains_key(key@) ==> removed is None,
    {
        table_remove_entry(self, key)
    }
}

/// Every registered sequence, and the time a state is given where its
/// description names none.
pub struct AllAnimationResource {
    animation_seqs: AnimationRepository,
    global_animation_duration: PosScaleFactor,
}

impl View for AllAnimationResource {
    type V = Map<Seq<char>, AnimationCollection>;

    closed spec fn view(&self) -> Map<Seq<char>, AnimationCollection> {
        self.animation_seqs@
    }
}

/// What a lookup of the sequence `key` gives: the collection registered
/// under it, or the report that none is.
pub open spec fn spec_animation_under(
    collections: Map<Seq<char>, AnimationCollection>,
    key: Seq<char>,
    result: Result<&AnimationCollection, NotFoundError>,
) -> bool {
    if collections.contains_key(key) {
        result is Ok && *result->Ok_0 == collections[key]
    } else {
        result matches Err(NotFoundError::AnimationSequence(missing)) && missing@ == key
    }
}

impl Default for AllAnimationResource {
    fn default() -> (repos: Self)
        ensures
            repos@ == spec_no_collections(),
            repos.spec_global_animation_duration().millionths
                == crate::pos_scale_factor::SCALE_ONE,
    {
        AllAnimationResource {
            animation_seqs: AnimationRepository::new(),
            global_animation_duration: PosScaleFactor::new_as_complete(),
        }
    }
}

impl AllAnimationResource {
    /// Seconds, as a scale, that a state is given where its description names
    /// no time.
    pub closed spec fn spec_global_animation_duration(&self) -> PosScaleFactor {
        self.global_animation_duration
    }

    /// Seconds, as a scale, that a state is given where its description names
    /// no time.
    pub fn global_animation_duration(&self) -> (duration: PosScaleFactor)
        ensures
            duration == self.spec_global_animation_duration(),
    {
        self.global_animation_duration
    }

    pub fn set_global_animation_duration(&mut self, global_animation_duration: PosScaleFactor)
        ensures
            final(self).spec_global_animation_duration() == global_animation_duration,
            final(self)@ == old(self)@,
    {
        self.global_animation_duration = global_animation_duration;
    }

    /// The names of the registered sequences, each once, in no particular order.
    pub fn sequence_names(&self) -> (names: Vec<String>)
        ensures
            forall|name: Seq<char>| #[trigger]
                self@.contains_key(name) <==> spec_holds_name(names@, name),
            spec_names_differ(names@),
    {
        self.animation_seqs.keys()
    }

    /// The state names of the sequence `key`, each once, in no particular order.
    pub fn state_names_under(&self, key: &str) -> (result: Result<Vec<String>, NotFoundError>)
        ensures
            self@.contains_key(key@) ==> result is Ok && spec_names_differ(
                result->Ok_0@,
            ) && forall|name: Seq<char>| #[trigger]
                self@[key@].spec_frames()@.contains_key(name)
                    <==> spec_holds_name(result->Ok_0@, name),
            !self@.contains_key(key@) ==> (result matches Err(
                NotFoundError::AnimationSequence(missing),
            ) && missing@ == key@),
    {
        match self.animation_under(key) {
            Ok(collection) => Ok(collection.frames().keys()),
            Err(error) => Err(error),
        }
    }

    /// The sequence registered under `key`, if there is one.
    pub fn animation_sequence(&self, key: &str) -> (found: Option<&AnimationCollection>)
        ensures
            self@.contains_key(key@) ==> found is Some && *found->Some_0 == self@[key@],
            !self@.contains_key(key@) ==> found is None,
    {
        self.animation_seqs.get(key)
    }

    /// Registers `collection` under the name `key`. A name can be registered
    /// once: for a name that is taken the repository stays as it is and the
    /// name is reported.
    pub fn add_animations(&mut self, key: TextLike, collection: AnimationCollection) -> (result:
        AnimationResult<()>)
        ensures
            final(self).spec_global_animation_duration() == old(self).spec_global_animation_duration(),
            !old(self)@.contains_key(key.spec_text()) ==> result is Ok && final(self)@ == old(
                self)@.insert(key.spec_text(), collection),
            old(self)@.contains_key(key.spec_text()) ==> final(self)@ == old(self)@ && (
            result matches Err(AnimationError::DuplicateKeySequenceProvided(name)) && name@
                == key.spec_text()),
    {
        let name = key.into_registered_name();
        if self.animation_seqs.get(name.as_str()).is_some() {
            return Err(AnimationError::DuplicateKeySequenceProvided(name));
        }
        self.animation_seqs.insert(name, collection);
        Ok(())
    }

    /// The sequence registered under `key`.
    pub fn animation_under(&self, key: &str) -> (result: Result<&AnimationCollection, NotFoundError>)
        ensures
            spec_animation_under(self@, key@, result),
    {
        match self.animation_seqs.get(key) {
            Some(collection) => Ok(collection),
            None => Err(NotFoundError::AnimationSequence(key.to_owned())),
        }
    }

    /// What an entity needs in order to play the sequence `key` from its
    /// start state: it shows the first frame of that state with a fresh
    /// timer, nothing is asked of it, and time passes for it at a scale of
    /// one. Fails where no sequence is registered under `key`, and only
    /// there: the start state of a registered sequence always has frames.
    pub fn create_sprite_comp(&self, key: &str) -> (result: KeyLookUpResult<SpriteAnimationBundle>)
        ensures
            spec_sprite_comp(self@, key@, result),
            result is Ok <==> self@.contains_key(key@),
    {
        let (frames_key, animations) = match self.animation_seqs.get_key_value(key) {
            Some(found) => found,
            None => {
                return Err(NotFoundError::AnimationSequence(key.to_owned()));
            },
        };
        let frames = match AnimationComp::new(
            frames_key.to_owned(),
            animations.start_state().to_owned(),
            self,
        ) {
            Ok(frames) => frames,
            Err(error) => {
                return Err(error);
            },
        };
        let index = match frames.start_index(self) {
            Ok(index) => index,
            Err(error) => {
                return Err(error);
            },
        };
        Ok(
            SpriteAnimationBundle {
                texture_atlas: animations.atlas(),
                index,
                time_scale: AnimationTimeScale::default(),
                frames,
            },
        )
    }

    /// Registers the sequence that `animations` describes, over the atlas
    /// that has been made from its layout and registered under `atlas`. The
    /// sequence goes under `key` where one is given, else under the name in
    /// the description. Returns the name it went under.
    pub fn add_from_asset(&mut self, animations: &AnimationAssets, atlas: UntypedHandle, key: Option<
        TextLike,
    >) -> (result: AnimationResult<String>)
        requires
            animations.spec_fits(),
        ensures
            final(self).spec_global_animation_duration() == old(self).spec_global_animation_duration(),
            match spec_chosen_key(animations.init_name, key) {
                None => result == Err::<String, AnimationError>(
                    AnimationError::NoSeqeunceKeyProvided,
                ) && final(self)@ == old(self)@,
                Some(name) => exists|built: AnimationResult<AnimationCollection>| #[trigger]
                    animations.spec_animation_collection(
                        atlas,
                        old(self).spec_global_animation_duration(),
                        built,
                    ) && spec_added(old(self)@, name, built, final(self)@) && spec_add_reported(
                        old(self)@,
                        name,
                        built,
                        spec_failure_of(result),
                    ) && (result is Ok ==> result->Ok_0@ == name),
            },
    {
        let static_key = match key {
            Some(from_func_call) => from_func_call.into_registered_name(),
            None => match animations.name() {
                Some(from_asset) => from_asset.to_owned(),
                None => {
                    return Err(AnimationError::NoSeqeunceKeyProvided);
                },
            },
        };
        let returned = static_key.clone();
        match self.inner_add_from_asset(static_key, animations, atlas) {
            Ok(()) => Ok(returned),
            Err(error) => Err(error),
        }
    }

    /// Replaces the frames of the sequence `name` by `new_seq`, all at once.
    /// The sequence keeps its name, its atlas and its start state, and every
    /// other sequence stays as it is. Where the sequence is not registered,
    /// and where the new table has no frames for the sequence's start state,
    /// the repository stays as it is and the name that is missing is reported.
    pub fn replace_frames(&mut self, name: &str, new_seq: AnimationSequence) -> (result: Result<
        (),
        NotFoundError,
    >)
        ensures
            final(self).spec_global_animation_duration() == old(self).spec_global_animation_duration(),
            spec_frames_swapped(old(self)@, name@, new_seq, final(self)@, result),
    {
        match self.animation_seqs.remove_entry(name) {
            Some((key, to_change)) => {
                let mut to_change = to_change;
                let result = to_change.set_frames(new_seq);
                self.animation_seqs.insert(key, to_change);
                proof {
                    assert(self@.dom() =~= old(self)@.dom());
                    if result is Err {
                        assert(self@ =~= old(self)@);
                    }
                }
                result
            },
            None => {
                proof {
                    assert(self@ =~= old(self)@);
                }
                Err(NotFoundError::AnimationSequence(name.to_owned()))
            },
        }
    }

    /// Replaces the frames of the sequence `name` by those that `animations`
    /// describes, all at once. Entities that play the sequence keep their
    /// state. Where the sequence is not registered, where the description
    /// gives no table of frames, and where the table it gives has no frames
    /// for the sequence's start state, the repository stays as it is.
    pub fn replace_from_assets(&mut self, name: &str, animations: &AnimationAssets) -> (result:
        AnimationResult<()>)
        requires
            animations.spec_fits(),
        ensures
            final(self).spec_global_animation_duration() == old(self).spec_global_animation_duration(),
            !old(self)@.contains_key(name@) ==> final(self)@ == old(self)@ && (
            result matches Err(AnimationError::NotFound(NotFoundError::AnimationSequence(missing)))
                && missing@ == name@),
            old(self)@.contains_key(name@) ==> exists|rebuilt: AnimationResult<AnimationSequence>| #[trigger]
                animations.spec_ani_seq(old(self).spec_global_animation_duration(), rebuilt)
                    && match rebuilt {
                    Err(error) => result == Err::<(), AnimationError>(error) && final(self)@ == old(self)@,
                    Ok(new_seq) => match result {
                        Ok(_) => spec_frames_swapped(
                            old(self)@,
                            name@,
                            new_seq,
                            final(self)@,
                            Ok::<(), NotFoundError>(()),
                        ),
                        Err(AnimationError::NotFound(error)) => spec_frames_swapped(
                            old(self)@,
                            name@,
                            new_seq,
                            final(self)@,
                            Err::<(), NotFoundError>(error),
                        ),
                        Err(_) => false,
                    },
                },
    {
        if self.animation_seqs.get(name).is_none() {
            return Err(AnimationError::NotFound(NotFoundError::AnimationSequence(name.to_owned())));
        }
        let rebuilt = animations.to_ani_seq(self.global_animation_duration);
        let ghost witness = rebuilt;
        let result = match rebuilt {
            Ok(new_seq) => match self.replace_frames(name, new_seq) {
                Ok(()) => Ok(()),
                Err(error) => Err(AnimationError::NotFound(error)),
            },
            Err(error) => Err(error),
        };
        proof {
            assert(animations.spec_ani_seq(old(self).spec_global_animation_duration(), witness));
        }
        result
    }

    /// Builds the collection that `animations` describes and registers it
    /// under `key`, unless the name is taken: then the repository stays as it
    /// is.
    pub fn inner_add_from_asset(
        &mut self,
        key: String,
        animations: &AnimationAssets,
        atlas: UntypedHandle,
    ) -> (result: AnimationResult<()>)
        requires
            animations.spec_fits(),
        ensures
            final(self).spec_global_animation_duration() == old(self).spec_global_animation_duration(),
            exists|built: AnimationResult<AnimationCollection>| #[trigger]
                animations.spec_animation_collection(
                    atlas,
                    old(self).spec_global_animation_duration(),
                    built,
                ) && spec_added(old(self)@, key@, built, final(self)@) && spec_add_reported(
                    old(self)@,
                    key@,
                    built,
                    spec_failure_of(result),
                ),
    {
        let built = animations.to_animaton_collection(atlas, self.global_animation_duration);
        let ghost witness = built;
        let result = match built {
            Ok(collection) => {
                if self.animation_seqs.get(key.as_str()).is_some() {
                    Err(AnimationError::DuplicateKeySequenceProvided(key))
                } else {
                    self.animation_seqs.insert(key, collection);
                    Ok(())
                }
            },
            Err(error) => Err(error),
        };
        proof {
            assert(animations.spec_animation_collection(
                atlas,
                old(self).spec_global_animation_duration(),
                witness,
            ));
        }
        result
    }
}

/// The name under which a described sequence is registered: the one the
/// caller gives, else the one in the description.
pub open spec fn spec_chosen_key(init_name: Option<String>, key: Option<TextLike>) -> Option<Seq<char>> {
    match key {
        Some(from_func_call) => Some(from_func_call.spec_text()),
        None => match init_name {
            Some(from_asset) => Some(from_asset@),
            None => None,
        },
    }
}

/// The failure that a result reports, if it reports one.
pub open spec fn spec_failure_of<T>(result: AnimationResult<T>) -> Option<AnimationError> {
    match result {
        Ok(_) => None,
        Err(error) => Some(error),
    }
}

/// Whether `failure` is what the attempt to register `built` under `name`
/// reports: the reason why the collection could not be built; else, where
/// the name is taken, the name; else nothing.
pub open spec fn spec_add_reported(
    collections: Map<Seq<char>, AnimationCollection>,
    name: Seq<char>,
    built: AnimationResult<AnimationCollection>,
    failure: Option<AnimationError>,
) -> bool {
    match built {
        Err(error) => failure == Some(error),
        Ok(_) => if collections.contains_key(name) {
            failure matches Some(AnimationError::DuplicateKeySequenceProvided(taken)) && taken@
                == name
        } else {
            failure is None
        },
    }
}

/// The repository after the attempt to register `built` under `name`: with
/// the collection under the name where it was built and the name was free,
/// else as before.
pub open spec fn spec_added(
    before: Map<Seq<char>, AnimationCollection>,
    name: Seq<char>,
    built: AnimationResult<AnimationCollection>,
    after: Map<Seq<char>, AnimationCollection>,
) -> bool {
    match built {
        Ok(collection) => if before.contains_key(name) {
            after == before
        } else {
            after == before.insert(name, collection)
        },
        Err(_) => after == before,
    }
}

/// Whether `after` is the collection `before` with `new_seq` as its frames
/// and everything else as it was.
pub open spec fn spec_frames_replaced(
    before: AnimationCollection,
    new_seq: AnimationSequence,
    after: AnimationCollection,
) -> bool {
    &&& after.spec_frames() == new_seq
    &&& after.spec_meta() == before.spec_meta()
    &&& after.spec_start_state() == before.spec_start_state()
}

/// What replacing the frames of the sequence `name` by `new_seq` owes: the
/// same sequences are registered afterwards, the one under `name` has the new
/// frames and is otherwise as before, and the others are untouched. Where no
/// sequence is registered under `name`, nothing changes and the name is
/// reported; where the new table has no frames for the sequence's start
/// state, nothing changes and the start state is reported.
pub open spec fn spec_frames_swapped(
    before: Map<Seq<char>, AnimationCollection>,
    name: Seq<char>,
    new_seq: AnimationSequence,
    after: Map<Seq<char>, AnimationCollection>,
    result: Result<(), NotFoundError>,
) -> bool {
    if before.contains_key(name) && new_seq@.contains_key(before[name].spec_start_state()) {
        &&& result is Ok
        &&& after.dom() == before.dom()
        &&& spec_frames_replaced(before[name], new_seq, after[name])
        &&& forall|other: Seq<char>|
            other != name && before.contains_key(other) ==> #[trigger] after[other] == before[other]
    } else if before.contains_key(name) {
        &&& after == before
        &&& result matches Err(NotFoundError::SingleAnimation(missing))
        &&& missing@ == before[name].spec_start_state()
    } else {
        &&& after == before
        &&& result matches Err(NotFoundError::AnimationSequence(missing))
        &&& missing@ == name
    }
}

/// What asking for the bundle of the sequence `key` gives.
pub open spec fn spec_sprite_comp(
    collections: Map<Seq<char>, AnimationCollection>,
    key: Seq<char>,
    result: KeyLookUpResult<SpriteAnimationBundle>,
) -> bool {
    if !collections.contains_key(key) {
        result matches Err(NotFoundError::AnimationSequence(missing)) && missing@ == key
    } else {
        let collection = collections[key];
        let start_state = collection.spec_start_state();
        if !collection.spec_frames()@.contains_key(start_state) {
            result matches Err(NotFoundError::SingleAnimation(missing)) && missing@ == start_state
        } else {
            let frames = collection.spec_frames()@[start_state];
            &&& result is Ok
            &&& result->Ok_0.texture_atlas == collection.spec_meta().spec_atlas()
            &&& result->Ok_0.index == frames.spec_start()
            &&& result->Ok_0.time_scale.0.millionths == crate::pos_scale_factor::SCALE_ONE
            &&& result->Ok_0.frames.sequence@ == key
            &&& result->Ok_0.frames.current_state@ == start_state
            &&& !result->Ok_0.frames.reset_state
            &&& result->Ok_0.frames.next_state is None
            &&& !result->Ok_0.frames.has_reached_end_without_repeat
            &&& result->Ok_0.frames.duration_for_animation == (AnimationTimer {
                duration: AnimationDuration { nanos: frames.spec_time_per_frame() as u64 },
                elapsed: AnimationDuration { nanos: 0 },
            })
        }
    }
}

} // verus!
