use bevy::asset::Handle;
use bevy::asset::LoadedFolder;
use bevy::asset::UntypedHandle;
use bevy::math::Vec2;
use sprite_animation::animation_altlas::AnimationAltlas;
use sprite_animation::animation_altlas::AnimationAltlasMeta;
use sprite_animation::animation_collection::to_build_to_ani_seq;
use sprite_animation::animation_collection::AnimationCollection;
use sprite_animation::animation_collection::AnimationCollectionBuilder;
use sprite_animation::animation_collection::AnimationSequence;
use sprite_animation::animation_collection::AnimationSequenceBuilder;
use sprite_animation::animation_error::AnimationError;
use sprite_animation::animation_error::NotFoundError;
use sprite_animation::animation_frames::AnimationFrames;
use sprite_animation::animation_key::AnimationKey;
use sprite_animation::animation_respo_resource::AllAnimationResource;
use sprite_animation::animation_respo_resource::AnimationRepository;
use sprite_animation::pos_scale_factor::PosScaleFactor;
use sprite_animation::static_text_repos::register_text_as_key;
use sprite_animation::text_like::TextLike;
use sprite_animation::types::AnimationDuration;

fn atlas_handle(id: u128) -> UntypedHandle {
    Handle::<LoadedFolder>::weak_from_u128(id).untyped()
}

fn atlas(id: u128) -> AnimationAltlas {
    AnimationAltlasMeta::new(4, 6, Vec2::new(64.0, 64.0)).build(atlas_handle(id))
}

fn row(row: usize) -> AnimationFrames {
    AnimationFrames::from_row(row, AnimationDuration::from_secs(1), 6, true).unwrap()
}

fn walking(id: u128) -> AnimationCollection {
    AnimationCollectionBuilder::new(atlas(id))
        .add_animation(TextLike::Static("Left"), row(1))
        .add_animation(TextLike::Static("Right"), row(3))
        .build(TextLike::Static("Left"))
        .unwrap()
}

#[test]
fn registered_name_holds_the_text() {
    assert_eq!(register_text_as_key(TextLike::Static("walk")), "walk");
    let text = String::from("run");
    assert_eq!(register_text_as_key(TextLike::Ref(&text)), "run");
    assert_eq!(register_text_as_key(TextLike::Owned(String::from("idle"))), "idle");
    assert_eq!(TextLike::Static("jump").into_registered_name(), "jump");
    assert_eq!(TextLike::Owned(String::new()).into_registered_name(), "");
}

#[test]
fn text_like_as_str_gives_the_text() {
    let text = String::from("reference");
    assert_eq!(TextLike::Static("static").as_str(), "static");
    assert_eq!(TextLike::Ref(&text).as_str(), "reference");
    assert_eq!(TextLike::Owned(String::from("owned")).as_str(), "owned");
}

#[test]
fn animation_key_holds_the_text() {
    let key = AnimationKey::new("walk");
    assert_eq!(key.as_str(), "walk");
    assert_eq!(key, AnimationKey::from("walk"));
    assert_eq!(key, AnimationKey::from(String::from("walk")));
    assert_ne!(key, AnimationKey::new("run"));
    let text: &str = &key;
    assert_eq!(text, "walk");
    let text: &str = key.as_ref();
    assert_eq!(text, "walk");
    assert!(AnimationKey::new("a") < AnimationKey::new("b"));
}

#[test]
fn new_sequence_is_empty() {
    let sequence = AnimationSequence::new();
    assert!(sequence.keys().is_empty());
    assert_eq!(sequence.get("Left"), None);
    assert!(!sequence.contains_key("Left"));
    assert_eq!(sequence.get_key_value("Left"), None);
}

#[test]
fn sequence_insert_then_get() {
    let mut sequence = AnimationSequence::new();
    assert_eq!(sequence.insert(String::from("Left"), row(1)), None);
    assert_eq!(sequence.insert(String::from("Right"), row(3)), None);
    assert_eq!(sequence.get("Left"), Some(row(1)));
    assert_eq!(sequence.get("Right"), Some(row(3)));
    assert_eq!(sequence.get("Top"), None);
    assert!(sequence.contains_key("Right"));
    assert_eq!(sequence.get_key_value("Left"), Some(("Left", row(1))));
    let mut names = sequence.keys();
    names.sort();
    assert_eq!(names, vec![String::from("Left"), String::from("Right")]);
}

#[test]
fn sequence_insert_replaces_and_returns_the_old_frames() {
    let mut sequence = AnimationSequence::new();
    sequence.insert(String::from("Left"), row(1));
    assert_eq!(sequence.insert(String::from("Left"), row(2)), Some(row(1)));
    assert_eq!(sequence.get("Left"), Some(row(2)));
    assert_eq!(sequence.keys(), vec![String::from("Left")]);
}

#[test]
fn sequence_builder_builds_the_table() {
    let sequence = AnimationSequenceBuilder::new()
        .add_animation(TextLike::Static("Left"), row(1))
        .add_animation(TextLike::Owned(String::from("Right")), row(3))
        .build()
        .unwrap();
    assert_eq!(sequence.get("Left"), Some(row(1)));
    assert_eq!(sequence.get("Right"), Some(row(3)));
    assert_eq!(sequence.keys().len(), 2);
}

#[test]
fn sequence_builder_rejects_a_repeated_name() {
    let text = String::from("Left");
    let result = AnimationSequenceBuilder::new()
        .add_animation(TextLike::Static("Left"), row(1))
        .add_animation(TextLike::Static("Right"), row(3))
        .add_animation(TextLike::Ref(&text), row(2))
        .add_animation(TextLike::Static("Right"), row(0))
        .build();
    assert_eq!(result.err(), Some(AnimationError::DuplicateStateProvided(String::from("Left"))));
}

#[test]
fn entries_are_converted_in_order() {
    let entries = vec![(TextLike::Static("a"), row(0)), (TextLike::Static("b"), row(1))];
    let sequence = to_build_to_ani_seq(entries).unwrap();
    assert_eq!(sequence.get("a"), Some(row(0)));
    assert_eq!(sequence.get("b"), Some(row(1)));
    let entries = vec![(TextLike::Static("a"), row(0)), (TextLike::Static("a"), row(1))];
    assert_eq!(
        to_build_to_ani_seq(entries).err(),
        Some(AnimationError::DuplicateStateProvided(String::from("a")))
    );
    assert!(to_build_to_ani_seq(Vec::new()).unwrap().keys().is_empty());
}

#[test]
fn sequence_builder_adds_whole_rows() {
    let meta = atlas(1);
    let sequence = AnimationSequenceBuilder::new()
        .add_row_ani(TextLike::Static("Bottom"), 2, AnimationDuration::from_secs(3), &meta)
        .build()
        .unwrap();
    let frames = sequence.get("Bottom").unwrap();
    assert_eq!(frames.start(), 12);
    assert_eq!(frames.end(), 17);
    assert_eq!(frames.time(), AnimationDuration::from_secs(3));
    assert!(frames.is_infinite());
}

#[test]
fn atlas_layout_is_kept() {
    let meta = AnimationAltlasMeta::new(4, 6, Vec2::new(64.0, 32.0));
    assert_eq!(meta.rows(), 4);
    assert_eq!(meta.columns(), 6);
    assert_eq!(meta.cell_size(), Vec2::new(64.0, 32.0));
    assert_eq!(meta.padding(), None);
    assert_eq!(meta.offset(), None);
    let meta = meta.new_padding(Vec2::new(1.0, 2.0)).new_offset(Vec2::new(3.0, 4.0));
    assert_eq!(meta.padding(), Some(Vec2::new(1.0, 2.0)));
    assert_eq!(meta.offset(), Some(Vec2::new(3.0, 4.0)));
    assert_eq!(meta.rows(), 4);
    assert_eq!(meta.columns(), 6);
    let built = meta.build(atlas_handle(9));
    assert_eq!(built.atlas(), atlas_handle(9));
    assert_ne!(built.atlas(), atlas_handle(10));
    assert_eq!(built.data().columns(), 6);
    assert_eq!(built.data().padding(), Some(Vec2::new(1.0, 2.0)));
}

#[test]
fn collection_builder_builds_the_collection() {
    let collection = AnimationCollectionBuilder::new(atlas(7))
        .add_animation(TextLike::Static("Left"), row(1))
        .add_row_ani(TextLike::Static("Top"), 0, AnimationDuration::from_secs(2))
        .build(TextLike::Static("Top"))
        .unwrap();
    assert_eq!(collection.start_state(), "Top");
    assert_eq!(collection.atlas(), atlas_handle(7));
    assert_eq!(collection.get_frames_under("Left"), Ok(row(1)));
    let top = collection.get_frames_under("Top").unwrap();
    assert_eq!(top.start(), 0);
    assert_eq!(top.end(), 5);
    assert_eq!(top.time(), AnimationDuration::from_secs(2));
    assert_eq!(collection.frames().keys().len(), 2);
    assert_eq!(collection.key_and_frames_under("Left"), Ok(("Left", row(1))));
}

#[test]
fn collection_builder_needs_the_start_state() {
    let result = AnimationCollectionBuilder::new(atlas(7))
        .add_animation(TextLike::Static("Left"), row(1))
        .build(TextLike::Static("Right"));
    assert_eq!(
        result.err(),
        Some(AnimationError::NotFound(NotFoundError::SingleAnimation(String::from("Right"))))
    );
    let result = AnimationCollectionBuilder::new(atlas(7)).build(TextLike::Static("Left"));
    assert_eq!(
        result.err(),
        Some(AnimationError::NotFound(NotFoundError::SingleAnimation(String::from("Left"))))
    );
}

#[test]
fn collection_builder_rejects_a_repeated_name() {
    let result = AnimationCollectionBuilder::new(atlas(7))
        .add_animation(TextLike::Static("Left"), row(1))
        .add_animation(TextLike::Static("Left"), row(2))
        .build(TextLike::Static("Right"));
    assert_eq!(result.err(), Some(AnimationError::DuplicateStateProvided(String::from("Left"))));
}

#[test]
fn unknown_state_is_a_typed_failure() {
    let collection = walking(1);
    assert_eq!(
        collection.get_frames_under("Top"),
        Err(NotFoundError::SingleAnimation(String::from("Top")))
    );
    assert_eq!(
        collection.key_and_frames_under("Top"),
        Err(NotFoundError::SingleAnimation(String::from("Top")))
    );
    assert_eq!(NotFoundError::SingleAnimation(String::from("Top")).key(), "Top");
    assert_eq!(NotFoundError::AnimationSequence(String::from("player")).key(), "player");
}

#[test]
fn set_frames_replaces_the_whole_table() {
    let mut collection = walking(1);
    let mut new_seq = AnimationSequence::new();
    new_seq.insert(String::from("Top"), row(0));
    new_seq.insert(String::from("Left"), row(2));
    assert_eq!(collection.set_frames(new_seq), Ok(()));
    assert_eq!(collection.get_frames_under("Top"), Ok(row(0)));
    assert_eq!(collection.get_frames_under("Left"), Ok(row(2)));
    assert_eq!(
        collection.get_frames_under("Right"),
        Err(NotFoundError::SingleAnimation(String::from("Right")))
    );
    assert_eq!(collection.start_state(), "Left");
    assert_eq!(collection.atlas(), atlas_handle(1));
}

#[test]
fn set_frames_refuses_a_table_without_the_start_state() {
    let mut collection = walking(1);
    let mut new_seq = AnimationSequence::new();
    new_seq.insert(String::from("Top"), row(0));
    assert_eq!(
        collection.set_frames(new_seq),
        Err(NotFoundError::SingleAnimation(String::from("Left")))
    );
    assert_eq!(
        collection.set_frames(AnimationSequence::new()),
        Err(NotFoundError::SingleAnimation(String::from("Left")))
    );
    assert_eq!(collection.get_frames_under("Left"), Ok(row(1)));
    assert_eq!(collection.get_frames_under("Right"), Ok(row(3)));
    assert_eq!(
        collection.get_frames_under("Top"),
        Err(NotFoundError::SingleAnimation(String::from("Top")))
    );
    assert_eq!(collection.frames().keys().len(), 2);
}

#[test]
fn atlas_with_layout_can_be_cloned() {
    let built = atlas(3);
    let copy = built.clone();
    assert_eq!(copy.atlas(), atlas_handle(3));
    assert_eq!(copy.data().rows(), 4);
    assert_eq!(copy.data().columns(), 6);
    assert_eq!(copy.data().cell_size(), Vec2::new(64.0, 64.0));
    assert_eq!(built.atlas(), atlas_handle(3));
    let collection = walking(3);
    assert_eq!(collection.meta().atlas(), atlas_handle(3));
    assert_eq!(collection.meta().data().columns(), 6);
}

#[test]
fn sequence_names_are_listed_once_each() {
    let mut repos = AllAnimationResource::default();
    assert!(repos.sequence_names().is_empty());
    repos.add_animations(TextLike::Static("player"), walking(1)).unwrap();
    repos.add_animations(TextLike::Static("enemy"), walking(2)).unwrap();
    let _ = repos.add_animations(TextLike::Static("enemy"), walking(3));
    let mut names = repos.sequence_names();
    names.sort();
    assert_eq!(names, vec![String::from("enemy"), String::from("player")]);
    let mut repository = AnimationRepository::new();
    assert!(repository.keys().is_empty());
    repository.insert(String::from("a"), walking(1));
    assert_eq!(repository.keys(), vec![String::from("a")]);
}

#[test]
fn repository_table_insert_get_remove() {
    let mut repository = AnimationRepository::new();
    assert!(repository.get("player").is_none());
    assert!(repository.get_key_value("player").is_none());
    assert!(repository.insert(String::from("player"), walking(1)).is_none());
    assert!(repository.insert(String::from("enemy"), walking(2)).is_none());
    assert_eq!(repository.get("player").unwrap().atlas(), atlas_handle(1));
    assert_eq!(repository.get("enemy").unwrap().atlas(), atlas_handle(2));
    let (name, found) = repository.get_key_value("enemy").unwrap();
    assert_eq!(name, "enemy");
    assert_eq!(found.start_state(), "Left");
    let replaced = repository.insert(String::from("player"), walking(3)).unwrap();
    assert_eq!(replaced.atlas(), atlas_handle(1));
    assert_eq!(repository.get("player").unwrap().atlas(), atlas_handle(3));
    assert!(repository.remove_entry("nobody").is_none());
    let (name, removed) = repository.remove_entry("player").unwrap();
    assert_eq!(name, "player");
    assert_eq!(removed.atlas(), atlas_handle(3));
    assert!(repository.get("player").is_none());
    assert_eq!(repository.get("enemy").unwrap().atlas(), atlas_handle(2));
}

#[test]
fn new_resource_is_empty_with_a_default_of_one_second() {
    let repos = AllAnimationResource::default();
    assert!(repos.animation_sequence("player").is_none());
    assert_eq!(repos.global_animation_duration(), PosScaleFactor::new_as_complete());
}

#[test]
fn global_duration_can_be_set() {
    let mut repos = AllAnimationResource::default();
    repos.add_animations(TextLike::Static("player"), walking(1)).unwrap();
    repos.set_global_animation_duration(PosScaleFactor::clamp(2_500_000));
    assert_eq!(repos.global_animation_duration().to_value(), 2_500_000);
    assert!(repos.animation_sequence("player").is_some());
}

#[test]
fn add_animations_registers_under_the_name() {
    let mut repos = AllAnimationResource::default();
    assert_eq!(repos.add_animations(TextLike::Static("player"), walking(1)), Ok(()));
    assert_eq!(repos.add_animations(TextLike::Owned(String::from("enemy")), walking(2)), Ok(()));
    assert_eq!(repos.animation_under("player").unwrap().atlas(), atlas_handle(1));
    assert_eq!(repos.animation_under("enemy").unwrap().atlas(), atlas_handle(2));
    assert_eq!(repos.animation_sequence("player").unwrap().start_state(), "Left");
}

#[test]
fn add_animations_rejects_a_taken_name_and_keeps_what_is_there() {
    let mut repos = AllAnimationResource::default();
    repos.add_animations(TextLike::Static("player"), walking(1)).unwrap();
    assert_eq!(
        repos.add_animations(TextLike::Static("player"), walking(2)),
        Err(AnimationError::DuplicateKeySequenceProvided(String::from("player")))
    );
    assert_eq!(repos.animation_under("player").unwrap().atlas(), atlas_handle(1));
}

#[test]
fn unknown_sequence_is_a_typed_failure() {
    let repos = AllAnimationResource::default();
    assert_eq!(
        repos.animation_under("player").err(),
        Some(NotFoundError::AnimationSequence(String::from("player")))
    );
    assert!(repos.animation_sequence("player").is_none());
    assert_eq!(
        repos.state_names_under("player"),
        Err(NotFoundError::AnimationSequence(String::from("player")))
    );
    assert_eq!(
        repos.create_sprite_comp("player").err(),
        Some(NotFoundError::AnimationSequence(String::from("player")))
    );
}

#[test]
fn state_names_are_listed_once_each() {
    let mut repos = AllAnimationResource::default();
    repos.add_animations(TextLike::Static("player"), walking(1)).unwrap();
    let mut names = repos.state_names_under("player").unwrap();
    names.sort();
    assert_eq!(names, vec![String::from("Left"), String::from("Right")]);
}

#[test]
fn sprite_comp_starts_in_the_start_state() {
    let mut repos = AllAnimationResource::default();
    repos.add_animations(TextLike::Static("player"), walking(5)).unwrap();
    let bundle = repos.create_sprite_comp("player").unwrap();
    assert_eq!(bundle.texture_atlas, atlas_handle(5));
    assert_eq!(bundle.index, 6);
    assert_eq!(bundle.time_scale.0, PosScaleFactor::new_as_complete());
    assert_eq!(bundle.frames.sequence(), "player");
    assert_eq!(bundle.frames.current_state(), "Left");
    assert!(!bundle.frames.get_reset_state());
    assert_eq!(bundle.frames.next_state, None);
    assert!(!bundle.frames.has_reached_end_without_repeat);
    assert_eq!(bundle.frames.duration_for_animation().duration.as_nanos(), 200_000_000);
    assert_eq!(bundle.frames.duration_for_animation().elapsed.as_nanos(), 0);
}

#[test]
fn sprite_comp_is_there_for_every_registered_sequence() {
    let mut repos = AllAnimationResource::default();
    let mut collection = walking(5);
    let mut other = AnimationSequence::new();
    other.insert(String::from("Top"), row(0));
    assert!(collection.set_frames(other).is_err());
    let mut other = AnimationSequence::new();
    other.insert(String::from("Left"), row(2));
    assert!(collection.set_frames(other).is_ok());
    repos.add_animations(TextLike::Static("player"), collection).unwrap();
    let bundle = repos.create_sprite_comp("player").unwrap();
    assert_eq!(bundle.index, 12);
    assert_eq!(bundle.frames.current_state(), "Left");
}
