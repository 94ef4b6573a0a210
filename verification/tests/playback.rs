use bevy::asset::Handle;
use bevy::asset::LoadedFolder;
use bevy::ecs::entity::Entity;
use bevy::math::Vec2;
use sprite_animation::animation_altlas::AnimationAltlasMeta;
use sprite_animation::animation_collection::AnimationCollectionBuilder;
use sprite_animation::animation_comp::get_animation_seq;
use sprite_animation::animation_comp::new_reapting_time;
use sprite_animation::animation_comp::AnimationComp;
use sprite_animation::animation_comp::AnimationTimer;
use sprite_animation::animation_ended::AnimationEnded;
use sprite_animation::animation_error::NotFoundError;
use sprite_animation::animation_frames::AnimationFrames;
use sprite_animation::animation_precent_progress::AnimationPrecentProgress;
use sprite_animation::animation_respo_resource::AllAnimationResource;
use sprite_animation::animation_time_factor::AnimationTimeScale;
use sprite_animation::listen_animation_end::ListenAnimationEnd;
use sprite_animation::pos_scale_factor::PosScaleFactor;
use sprite_animation::precent::PercentScaleFactor;
use sprite_animation::systems::animate;
use sprite_animation::systems::apply_pending_states;
use sprite_animation::systems::apply_state_reset;
use sprite_animation::systems::do_pending_resets;
use sprite_animation::systems::ended_in;
use sprite_animation::systems::tick;
use sprite_animation::systems::try_apply_state_change;
use sprite_animation::systems::try_apply_update;
use sprite_animation::systems::update_over_time;
use sprite_animation::systems::AnimatedSprite;
use sprite_animation::text_like::TextLike;
use sprite_animation::types::AnimationDuration;
use sprite_animation::utils::get_progress_of_animation;
use sprite_animation::utils::progress_in;

fn millis(millis: u64) -> AnimationDuration {
    AnimationDuration::from_millis(millis)
}

fn band(start: usize, end: usize, time: AnimationDuration, infinite: bool) -> AnimationFrames {
    AnimationFrames::new(0, Some(start), Some(0), Some(end + 1), time, 100, infinite).unwrap()
}

fn repository() -> AllAnimationResource {
    let meta = AnimationAltlasMeta::new(1, 100, Vec2::new(16.0, 16.0))
        .build(Handle::<LoadedFolder>::weak_from_u128(1).untyped());
    let collection = AnimationCollectionBuilder::new(meta)
        .add_animation(TextLike::Static("quarter"), band(0, 3, millis(750), true))
        .add_animation(TextLike::Static("third"), band(0, 3, millis(1000), true))
        .add_animation(TextLike::Static("pose"), band(2, 2, millis(1000), true))
        .add_animation(TextLike::Static("once"), band(0, 1, millis(2000), false))
        .add_animation(TextLike::Static("walk"), band(10, 14, millis(1000), true))
        .build(TextLike::Static("quarter"))
        .unwrap();
    let mut repos = AllAnimationResource::default();
    repos.add_animations(TextLike::Static("hero"), collection).unwrap();
    repos
}

fn who() -> Entity {
    Entity::from_raw(7)
}

fn sprite(state: &str, listen_end: bool, repos: &AllAnimationResource) -> AnimatedSprite {
    let animator = AnimationComp::new(String::from("hero"), String::from(state), repos).unwrap();
    let index = animator.start_index(repos).unwrap();
    AnimatedSprite {
        who: who(),
        animator,
        index,
        time_scale: AnimationTimeScale::default(),
        progress: None,
        listen_end,
    }
}

#[test]
fn timer_counts_up_and_starts_over() {
    let mut timer = AnimationTimer::new(millis(250));
    assert_eq!(timer.duration, millis(250));
    assert_eq!(timer.elapsed, AnimationDuration::zero());
    assert!(!timer.tick(millis(100)));
    assert_eq!(timer.elapsed, millis(100));
    assert!(!timer.tick(millis(149)));
    assert_eq!(timer.elapsed, millis(249));
    assert!(timer.tick(millis(1)));
    assert_eq!(timer.elapsed, AnimationDuration::zero());
    assert!(timer.tick(millis(600)));
    assert_eq!(timer.elapsed, millis(100));
    assert_eq!(timer.duration, millis(250));
}

#[test]
fn timer_without_duration_always_goes_off() {
    let mut timer = new_reapting_time(AnimationDuration::zero());
    assert!(timer.tick(AnimationDuration::zero()));
    assert_eq!(timer.elapsed, AnimationDuration::zero());
    assert!(timer.tick(millis(5)));
    assert_eq!(timer.elapsed, AnimationDuration::zero());
    assert_eq!(timer.percent(), PercentScaleFactor::new_as_complete());
}

#[test]
fn timer_goes_off_after_a_very_long_tick() {
    let mut timer = AnimationTimer::new(AnimationDuration::from_nanos(1));
    assert!(timer.tick(AnimationDuration::from_nanos(4_294_967_296)));
    assert_eq!(timer.elapsed, AnimationDuration::zero());
    let mut timer = AnimationTimer::new(AnimationDuration::from_nanos(10));
    timer.elapsed = AnimationDuration::from_nanos(u64::MAX);
    assert!(timer.tick(AnimationDuration::from_nanos(u64::MAX)));
    assert_eq!(timer.elapsed, AnimationDuration::from_nanos(0));
}

#[test]
fn timer_reset_and_percent() {
    let mut timer = AnimationTimer::new(millis(200));
    timer.tick(millis(50));
    assert_eq!(timer.percent().to_value(), 250_000);
    timer.tick(millis(100));
    assert_eq!(timer.percent().to_value(), 750_000);
    timer.reset();
    assert_eq!(timer.elapsed, AnimationDuration::zero());
    assert_eq!(timer.duration, millis(200));
    assert_eq!(timer.percent().to_value(), 0);
}

#[test]
fn time_scale_multiplies_the_time() {
    assert_eq!(AnimationTimeScale::default().scale_duration(millis(300)), millis(300));
    assert_eq!(AnimationTimeScale(PosScaleFactor::clamp(2_000_000)).scale_duration(millis(300)), millis(600));
    assert_eq!(AnimationTimeScale(PosScaleFactor::clamp(500_000)).scale_duration(millis(300)), millis(150));
    assert_eq!(
        AnimationTimeScale(PosScaleFactor::zero()).scale_duration(millis(300)),
        AnimationDuration::zero()
    );
    assert_eq!(
        AnimationTimeScale(PosScaleFactor::clamp(333_333)).scale_duration(AnimationDuration::from_nanos(10)),
        AnimationDuration::from_nanos(3)
    );
    assert_eq!(
        AnimationTimeScale(PosScaleFactor::clamp(3_000_000))
            .scale_duration(AnimationDuration::from_nanos(u64::MAX)),
        AnimationDuration::from_nanos(u64::MAX)
    );
}

#[test]
fn progress_readout_defaults_to_nothing() {
    let readout = AnimationPrecentProgress::default();
    assert_eq!(readout.value(), PercentScaleFactor::zero());
    assert!(!readout.manual);
}

#[test]
fn progress_readouts_are_ordered_by_progress_first() {
    let low = AnimationPrecentProgress { progress: PercentScaleFactor::clamp(100_000), manual: true };
    let high = AnimationPrecentProgress { progress: PercentScaleFactor::clamp(900_000), manual: false };
    assert!(low < high);
    assert!(AnimationPrecentProgress::default() < low);
    assert!(
        AnimationPrecentProgress { progress: PercentScaleFactor::clamp(100_000), manual: false } < low
    );
}

#[test]
fn listener_marker_is_a_unit() {
    assert_eq!(ListenAnimationEnd, ListenAnimationEnd);
}

#[test]
fn end_report_says_whether_the_state_was_completed() {
    let ended = AnimationEnded::new_complete(who(), String::from("walk"));
    assert_eq!(ended.who, who());
    assert_eq!(ended.state, "walk");
    assert!(ended.was_completed());
    assert_eq!(ended.progress(), 1_000_000);
    let ended = AnimationEnded {
        who: who(),
        progress: PercentScaleFactor::clamp(400_000),
        state: String::from("walk"),
    };
    assert!(!ended.was_completed());
    assert_eq!(ended.progress(), 400_000);
}

#[test]
fn new_playback_resolves_its_state() {
    let repos = repository();
    let comp = AnimationComp::new(String::from("hero"), String::from("walk"), &repos).unwrap();
    assert_eq!(comp.sequence(), "hero");
    assert_eq!(comp.current_state(), "walk");
    assert!(!comp.get_reset_state());
    assert_eq!(comp.next_state, None);
    assert!(!comp.has_reached_end_without_repeat);
    assert_eq!(comp.duration_for_animation(), AnimationTimer::new(millis(250)));
    assert_eq!(comp.start_index(&repos), Ok(10));
    assert_eq!(comp.get_current_seq(&repos), Ok(band(10, 14, millis(1000), true)));
}

#[test]
fn new_playback_fails_on_unknown_names() {
    let repos = repository();
    assert_eq!(
        AnimationComp::new(String::from("villain"), String::from("walk"), &repos),
        Err(NotFoundError::AnimationSequence(String::from("villain")))
    );
    assert_eq!(
        AnimationComp::new(String::from("hero"), String::from("fly"), &repos),
        Err(NotFoundError::SingleAnimation(String::from("fly")))
    );
    assert_eq!(
        get_animation_seq(&repos, "villain", "fly").err(),
        Some(NotFoundError::AnimationSequence(String::from("villain")))
    );
    assert_eq!(get_animation_seq(&repos, "hero", "walk"), Ok(("walk", band(10, 14, millis(1000), true))));
}

#[test]
fn requesting_the_current_state_queues_nothing() {
    let repos = repository();
    let mut comp = AnimationComp::new(String::from("hero"), String::from("walk"), &repos).unwrap();
    comp.change_state(TextLike::Static("walk"));
    assert_eq!(comp.next_state, None);
    comp.change_state(TextLike::Static("pose"));
    comp.change_state(TextLike::Owned(String::from("walk")));
    assert_eq!(comp.next_state, Some(String::from("pose")));
}

#[test]
fn requesting_another_state_queues_it() {
    let repos = repository();
    let mut comp = AnimationComp::new(String::from("hero"), String::from("walk"), &repos).unwrap();
    comp.change_state(TextLike::Static("pose"));
    assert_eq!(comp.next_state, Some(String::from("pose")));
    assert_eq!(comp.current_state(), "walk");
}

#[test]
fn only_the_latest_request_survives() {
    let repos = repository();
    let mut comp = AnimationComp::new(String::from("hero"), String::from("walk"), &repos).unwrap();
    comp.change_state(TextLike::Static("pose"));
    comp.change_state(TextLike::Static("once"));
    assert_eq!(comp.next_state, Some(String::from("once")));
    comp.set_state(TextLike::Static("walk"));
    assert_eq!(comp.next_state, Some(String::from("walk")));
}

#[test]
fn requesting_a_reset_sets_the_flag_only() {
    let repos = repository();
    let mut comp = AnimationComp::new(String::from("hero"), String::from("walk"), &repos).unwrap();
    comp.reset_current_state();
    assert!(comp.get_reset_state());
    assert_eq!(comp.current_state(), "walk");
    assert_eq!(comp.next_state, None);
}

#[test]
fn progress_blends_frames_and_time() {
    let frames = band(10, 14, millis(1000), true);
    let mut timer = AnimationTimer::new(millis(250));
    assert_eq!(progress_in(&frames, 10, &timer).to_value(), 0);
    assert_eq!(progress_in(&frames, 11, &timer).to_value(), 250_000);
    timer.tick(millis(125));
    assert_eq!(progress_in(&frames, 11, &timer).to_value(), 375_000);
    assert_eq!(progress_in(&frames, 10, &timer).to_value(), 125_000);
    assert_eq!(progress_in(&frames, 14, &timer).to_value(), 1_000_000);
    assert_eq!(progress_in(&frames, 3, &timer).to_value(), 0);
    assert_eq!(progress_in(&frames, 9, &timer).to_value(), 0);
    assert_eq!(progress_in(&frames, 99, &timer).to_value(), 1_000_000);
    let pose = band(2, 2, millis(1000), true);
    assert_eq!(progress_in(&pose, 2, &timer).to_value(), 0);
}

#[test]
fn progress_of_a_playback_is_looked_up() {
    let repos = repository();
    let mut comp = AnimationComp::new(String::from("hero"), String::from("walk"), &repos).unwrap();
    comp.duration_for_animation.tick(millis(50));
    assert_eq!(get_progress_of_animation(&comp, &repos, 12).unwrap().to_value(), 550_000);
    comp.current_state = String::from("fly");
    assert_eq!(
        get_progress_of_animation(&comp, &repos, 12),
        Err(NotFoundError::SingleAnimation(String::from("fly")))
    );
}

#[test]
fn infinite_range_steps_once_per_tick_and_wraps() {
    let repos = repository();
    let mut sprites = vec![sprite("quarter", false, &repos)];
    assert_eq!(sprites[0].animator.duration_for_animation().duration, millis(250));
    let mut shown = vec![sprites[0].index];
    for _ in 0..4 {
        let outcomes = animate(&mut sprites, millis(300), false, &repos);
        assert_eq!(outcomes, vec![Ok(None)]);
        shown.push(sprites[0].index);
    }
    assert_eq!(shown, vec![0, 1, 2, 3, 0]);
}

#[test]
fn one_second_cycle_over_three_steps_needs_a_third_of_a_second_per_frame() {
    let repos = repository();
    let mut sprites = vec![sprite("third", false, &repos)];
    assert_eq!(sprites[0].animator.duration_for_animation().duration.as_nanos(), 333_333_333);
    let mut shown = vec![sprites[0].index];
    for _ in 0..4 {
        animate(&mut sprites, millis(300), false, &repos);
        shown.push(sprites[0].index);
    }
    assert_eq!(shown, vec![0, 0, 1, 1, 2]);
}

#[test]
fn single_frame_range_never_moves() {
    let repos = repository();
    let mut sprites = vec![sprite("pose", true, &repos)];
    let before = sprite("pose", true, &repos);
    let deltas = vec![0u64, 1, 999, 1_000, 1_001, 5_000_000, u64::MAX / 1_000_000];
    for delta in deltas {
        let outcomes = animate(&mut sprites, millis(delta), false, &repos);
        assert_eq!(outcomes, vec![Ok(None)]);
        assert_eq!(sprites[0].index, 2);
        assert_eq!(sprites[0], before);
    }
}

#[test]
fn finite_range_reports_its_end_exactly_once() {
    let repos = repository();
    let mut sprites = vec![sprite("once", true, &repos)];
    let mut reports: Vec<AnimationEnded> = Vec::new();
    let mut shown = Vec::new();
    for _ in 0..12 {
        for outcome in animate(&mut sprites, millis(1000), false, &repos) {
            if let Some(ended) = outcome.unwrap() {
                reports.push(ended);
            }
        }
        shown.push(sprites[0].index);
    }
    assert_eq!(shown, vec![0, 1, 1, 1, 1, 1, 1, 1, 1, 1, 1, 1]);
    assert_eq!(reports, vec![AnimationEnded::new_complete(who(), String::from("once"))]);
    assert_eq!(reports[0].progress(), 1_000_000);
    assert!(sprites[0].animator.has_reached_end_without_repeat);
}

#[test]
fn finite_range_without_listener_freezes_silently() {
    let repos = repository();
    let mut sprites = vec![sprite("once", false, &repos)];
    for _ in 0..6 {
        assert_eq!(animate(&mut sprites, millis(2000), false, &repos), vec![Ok(None)]);
    }
    assert_eq!(sprites[0].index, 1);
    assert!(sprites[0].animator.has_reached_end_without_repeat);
}

#[test]
fn infinite_range_reports_every_cycle() {
    let repos = repository();
    let mut sprites = vec![sprite("quarter", true, &repos)];
    let mut reports = 0;
    for _ in 0..8 {
        for outcome in animate(&mut sprites, millis(250), false, &repos) {
            if outcome.unwrap().is_some() {
                reports += 1;
            }
        }
    }
    assert_eq!(reports, 2);
    assert_eq!(sprites[0].index, 0);
    assert!(!sprites[0].animator.has_reached_end_without_repeat);
}

#[test]
fn update_over_time_waits_for_the_timer() {
    let frames = band(10, 14, millis(1000), true);
    let repos = repository();
    let mut animator = AnimationComp::new(String::from("hero"), String::from("walk"), &repos).unwrap();
    let mut index = 10;
    let scale = AnimationTimeScale::default();
    assert_eq!(update_over_time(who(), &mut animator, &mut index, millis(100), &frames, &scale, true), None);
    assert_eq!(index, 10);
    assert_eq!(animator.duration_for_animation.elapsed, millis(100));
    assert_eq!(update_over_time(who(), &mut animator, &mut index, millis(150), &frames, &scale, true), None);
    assert_eq!(index, 11);
    assert_eq!(animator.duration_for_animation, AnimationTimer::new(millis(250)));
}

#[test]
fn time_scale_slows_the_playback() {
    let repos = repository();
    let mut sprites = vec![sprite("walk", false, &repos)];
    sprites[0].time_scale = AnimationTimeScale(PosScaleFactor::clamp(500_000));
    animate(&mut sprites, millis(300), false, &repos);
    assert_eq!(sprites[0].index, 10);
    assert_eq!(sprites[0].animator.duration_for_animation.elapsed, millis(150));
    animate(&mut sprites, millis(300), false, &repos);
    assert_eq!(sprites[0].index, 11);
}

#[test]
fn paused_clock_freezes_everything() {
    let repos = repository();
    let mut sprites = vec![sprite("walk", true, &repos)];
    sprites[0].animator.change_state(TextLike::Static("pose"));
    sprites[0].animator.reset_current_state();
    let before = sprite("walk", true, &repos);
    assert_eq!(animate(&mut sprites, millis(900), true, &repos), Vec::new());
    assert_eq!(sprites[0].index, before.index);
    assert_eq!(sprites[0].animator.duration_for_animation, before.animator.duration_for_animation);
    let outcomes = tick(&mut sprites, millis(900), true, &repos);
    assert!(outcomes.transitions.is_empty());
    assert!(outcomes.frames.is_empty());
    assert!(outcomes.resets.is_empty());
    assert_eq!(sprites[0].animator.next_state, Some(String::from("pose")));
    assert!(sprites[0].animator.reset_state);
    assert_eq!(sprites[0].index, 10);
}

#[test]
fn manual_progress_seeks_without_touching_the_timer() {
    let repos = repository();
    let mut entity = sprite("walk", true, &repos);
    entity.progress =
        Some(AnimationPrecentProgress { progress: PercentScaleFactor::clamp(500_000), manual: true });
    assert_eq!(try_apply_update(&mut entity, millis(10_000), &repos), Ok(None));
    assert_eq!(entity.index, 12);
    assert_eq!(entity.animator.duration_for_animation, AnimationTimer::new(millis(250)));
    entity.progress =
        Some(AnimationPrecentProgress { progress: PercentScaleFactor::new_as_complete(), manual: true });
    assert_eq!(try_apply_update(&mut entity, millis(10_000), &repos), Ok(None));
    assert_eq!(entity.index, 14);
    assert_eq!(
        entity.progress,
        Some(AnimationPrecentProgress { progress: PercentScaleFactor::new_as_complete(), manual: true })
    );
}

#[test]
fn progress_readout_follows_the_playback() {
    let repos = repository();
    let mut entity = sprite("walk", false, &repos);
    entity.progress = Some(AnimationPrecentProgress::default());
    assert_eq!(try_apply_update(&mut entity, millis(125), &repos), Ok(None));
    assert_eq!(entity.index, 10);
    assert_eq!(entity.progress.unwrap().value().to_value(), 125_000);
    assert_eq!(try_apply_update(&mut entity, millis(125), &repos), Ok(None));
    assert_eq!(entity.index, 11);
    assert_eq!(entity.progress.unwrap().value().to_value(), 250_000);
    assert!(!entity.progress.unwrap().manual);
}

#[test]
fn frame_pass_fails_softly_on_an_unknown_state() {
    let repos = repository();
    let mut sprites = vec![sprite("walk", true, &repos), sprite("walk", true, &repos), sprite("walk", true, &repos)];
    sprites[1].animator.current_state = String::from("fly");
    let lost = AnimatedSprite {
        who: who(),
        animator: AnimationComp {
            sequence: String::from("hero"),
            current_state: String::from("fly"),
            reset_state: false,
            duration_for_animation: AnimationTimer::new(millis(250)),
            next_state: None,
            has_reached_end_without_repeat: false,
        },
        index: 10,
        time_scale: AnimationTimeScale::default(),
        progress: None,
        listen_end: true,
    };
    let outcomes = animate(&mut sprites, millis(250), false, &repos);
    assert_eq!(
        outcomes,
        vec![Ok(None), Err(NotFoundError::SingleAnimation(String::from("fly"))), Ok(None)]
    );
    assert_eq!(sprites[0].index, 11);
    assert_eq!(sprites[1], lost);
    assert_eq!(sprites[2].index, 11);
    sprites[1].animator.sequence = String::from("villain");
    let outcomes = animate(&mut sprites, millis(250), false, &repos);
    assert_eq!(outcomes[1], Err(NotFoundError::AnimationSequence(String::from("villain"))));
    assert_eq!(sprites[0].index, 12);
}

#[test]
fn transition_lands_on_the_first_frame_of_the_new_state() {
    let repos = repository();
    let mut entity = sprite("quarter", false, &repos);
    entity.progress =
        Some(AnimationPrecentProgress { progress: PercentScaleFactor::clamp(600_000), manual: false });
    try_apply_update(&mut entity, millis(250), &repos).unwrap();
    entity.animator.has_reached_end_without_repeat = true;
    entity.animator.change_state(TextLike::Static("walk"));
    assert_eq!(try_apply_state_change(&mut entity, &repos), Ok(None));
    assert_eq!(entity.animator.current_state(), "walk");
    assert_eq!(entity.animator.next_state, None);
    assert_eq!(entity.index, 10);
    assert_eq!(entity.animator.duration_for_animation, AnimationTimer::new(millis(250)));
    assert!(!entity.animator.has_reached_end_without_repeat);
    assert_eq!(entity.progress, Some(AnimationPrecentProgress::default()));
    assert_eq!(entity.animator.sequence(), "hero");
}

#[test]
fn transition_reports_how_far_the_old_state_was() {
    let repos = repository();
    let mut entity = sprite("walk", true, &repos);
    try_apply_update(&mut entity, millis(250), &repos).unwrap();
    try_apply_update(&mut entity, millis(100), &repos).unwrap();
    assert_eq!(entity.index, 11);
    entity.animator.change_state(TextLike::Static("pose"));
    let ended = try_apply_state_change(&mut entity, &repos).unwrap().unwrap();
    assert_eq!(ended.who, who());
    assert_eq!(ended.state, "walk");
    assert_eq!(ended.progress(), 350_000);
    assert!(!ended.was_completed());
    assert_eq!(entity.animator.current_state(), "pose");
    assert_eq!(entity.index, 2);
}

#[test]
fn transition_without_a_request_changes_nothing() {
    let repos = repository();
    let mut entity = sprite("walk", true, &repos);
    let before = sprite("walk", true, &repos);
    assert_eq!(try_apply_state_change(&mut entity, &repos), Ok(None));
    assert_eq!(entity, before);
}

#[test]
fn transition_to_an_unknown_state_is_dropped() {
    let repos = repository();
    let mut entity = sprite("walk", true, &repos);
    try_apply_update(&mut entity, millis(250), &repos).unwrap();
    entity.animator.change_state(TextLike::Static("fly"));
    assert_eq!(
        try_apply_state_change(&mut entity, &repos),
        Err(NotFoundError::SingleAnimation(String::from("fly")))
    );
    assert_eq!(entity.animator.next_state, None);
    assert_eq!(entity.animator.current_state(), "walk");
    assert_eq!(entity.index, 11);
    assert_eq!(try_apply_state_change(&mut entity, &repos), Ok(None));
}

#[test]
fn transition_out_of_an_unknown_state_cannot_be_reported() {
    let repos = repository();
    let mut entity = sprite("walk", true, &repos);
    entity.animator.current_state = String::from("fly");
    entity.animator.change_state(TextLike::Static("pose"));
    assert_eq!(
        try_apply_state_change(&mut entity, &repos),
        Err(NotFoundError::SingleAnimation(String::from("fly")))
    );
    assert_eq!(entity.animator.next_state, None);
    assert_eq!(entity.animator.current_state(), "fly");
    let mut silent = sprite("walk", false, &repos);
    silent.animator.current_state = String::from("fly");
    silent.animator.change_state(TextLike::Static("pose"));
    assert_eq!(try_apply_state_change(&mut silent, &repos), Ok(None));
    assert_eq!(silent.animator.current_state(), "pose");
    assert_eq!(silent.index, 2);
}

#[test]
fn transition_pass_visits_every_entity() {
    let repos = repository();
    let mut sprites = vec![sprite("walk", false, &repos), sprite("walk", false, &repos), sprite("walk", true, &repos)];
    sprites[0].animator.change_state(TextLike::Static("fly"));
    sprites[2].animator.change_state(TextLike::Static("once"));
    let outcomes = apply_pending_states(&mut sprites, false, &repos);
    assert_eq!(outcomes.len(), 3);
    assert_eq!(outcomes[0], Err(NotFoundError::SingleAnimation(String::from("fly"))));
    assert_eq!(outcomes[1], Ok(None));
    assert_eq!(
        outcomes[2],
        Ok(Some(AnimationEnded {
            who: who(),
            progress: PercentScaleFactor::zero(),
            state: String::from("walk")
        }))
    );
    assert_eq!(sprites[0].animator.current_state(), "walk");
    assert_eq!(sprites[1].animator.current_state(), "walk");
    assert_eq!(sprites[2].animator.current_state(), "once");
    assert_eq!(sprites[2].index, 0);
}

#[test]
fn reports_are_gathered_in_order() {
    let first = AnimationEnded::new_complete(Entity::from_raw(1), String::from("a"));
    let second = AnimationEnded {
        who: Entity::from_raw(2),
        progress: PercentScaleFactor::clamp(250_000),
        state: String::from("b"),
    };
    let outcomes = vec![
        Ok(None),
        Ok(Some(AnimationEnded::new_complete(Entity::from_raw(1), String::from("a")))),
        Err(NotFoundError::SingleAnimation(String::from("fly"))),
        Ok(Some(AnimationEnded {
            who: Entity::from_raw(2),
            progress: PercentScaleFactor::clamp(250_000),
            state: String::from("b"),
        })),
        Ok(None),
    ];
    assert_eq!(ended_in(&outcomes), vec![first, second]);
    assert_eq!(ended_in(&Vec::new()), Vec::new());
    assert_eq!(ended_in(&vec![Ok(None), Err(NotFoundError::AnimationSequence(String::from("x")))]), Vec::new());
}

#[test]
fn reset_goes_back_to_the_first_frame() {
    let repos = repository();
    let mut entity = sprite("once", true, &repos);
    for _ in 0..3 {
        try_apply_update(&mut entity, millis(2000), &repos).unwrap();
    }
    assert_eq!(entity.index, 1);
    assert!(entity.animator.has_reached_end_without_repeat);
    entity.animator.reset_current_state();
    assert_eq!(apply_state_reset(&mut entity, &repos), Ok(()));
    assert_eq!(entity.index, 0);
    assert!(!entity.animator.reset_state);
    assert!(!entity.animator.has_reached_end_without_repeat);
    assert_eq!(entity.animator.duration_for_animation, AnimationTimer::new(millis(2000)));
    assert_eq!(entity.animator.current_state(), "once");
}

#[test]
fn reset_twice_in_a_row_keeps_the_frame() {
    let repos = repository();
    let mut entity = sprite("walk", false, &repos);
    try_apply_update(&mut entity, millis(250), &repos).unwrap();
    try_apply_update(&mut entity, millis(250), &repos).unwrap();
    assert_eq!(entity.index, 12);
    entity.animator.reset_current_state();
    apply_state_reset(&mut entity, &repos).unwrap();
    assert_eq!(entity.index, 10);
    let once = sprite("walk", false, &repos);
    assert_eq!(entity, once);
    apply_state_reset(&mut entity, &repos).unwrap();
    assert_eq!(entity, once);
    entity.animator.reset_current_state();
    apply_state_reset(&mut entity, &repos).unwrap();
    assert_eq!(entity, once);
    assert_eq!(entity.index, 10);
    entity.animator.current_state = String::from("fly");
    entity.animator.reset_current_state();
    assert!(apply_state_reset(&mut entity, &repos).is_err());
    let index_after_first = entity.index;
    assert!(apply_state_reset(&mut entity, &repos).is_err());
    assert_eq!(entity.index, index_after_first);
}

#[test]
fn reset_of_an_unknown_state_leaves_the_entity_as_it_is() {
    let repos = repository();
    let mut sprites = vec![sprite("walk", false, &repos), sprite("walk", false, &repos)];
    animate(&mut sprites, millis(250), false, &repos);
    animate(&mut sprites, millis(100), false, &repos);
    sprites[0].animator.current_state = String::from("fly");
    sprites[0].animator.has_reached_end_without_repeat = true;
    sprites[0].animator.reset_current_state();
    sprites[1].animator.reset_current_state();
    let outcomes = do_pending_resets(&mut sprites, false, &repos);
    assert_eq!(outcomes, vec![Err(NotFoundError::SingleAnimation(String::from("fly"))), Ok(())]);
    assert!(sprites[0].animator.reset_state);
    assert_eq!(sprites[0].index, 11);
    assert_eq!(sprites[0].animator.duration_for_animation.elapsed, millis(100));
    assert!(sprites[0].animator.has_reached_end_without_repeat);
    assert_eq!(sprites[1].index, 10);
    assert!(!sprites[1].animator.reset_state);
    sprites[0].animator.sequence = String::from("villain");
    let mut lost = sprite("walk", false, &repos);
    lost.animator.sequence = String::from("villain");
    lost.animator.reset_current_state();
    assert_eq!(
        apply_state_reset(&mut lost, &repos),
        Err(NotFoundError::AnimationSequence(String::from("villain")))
    );
    assert!(lost.animator.reset_state);
    assert_eq!(lost.index, 10);
    lost.animator.sequence = String::from("hero");
    assert_eq!(apply_state_reset(&mut lost, &repos), Ok(()));
    assert!(!lost.animator.reset_state);
}

#[test]
fn paused_clock_skips_the_transition_pass() {
    let repos = repository();
    let mut sprites = vec![sprite("walk", true, &repos)];
    animate(&mut sprites, millis(250), false, &repos);
    animate(&mut sprites, millis(100), false, &repos);
    sprites[0].animator.change_state(TextLike::Static("pose"));
    assert_eq!(apply_pending_states(&mut sprites, true, &repos), Vec::new());
    assert_eq!(sprites[0].animator.next_state, Some(String::from("pose")));
    assert_eq!(sprites[0].animator.current_state(), "walk");
    assert_eq!(sprites[0].index, 11);
    assert_eq!(sprites[0].animator.duration_for_animation.elapsed, millis(100));
    let outcomes = apply_pending_states(&mut sprites, false, &repos);
    assert_eq!(outcomes.len(), 1);
    assert_eq!(sprites[0].animator.current_state(), "pose");
    assert_eq!(sprites[0].animator.next_state, None);
}

#[test]
fn paused_clock_skips_the_reset_pass() {
    let repos = repository();
    let mut sprites = vec![sprite("walk", false, &repos)];
    animate(&mut sprites, millis(250), false, &repos);
    animate(&mut sprites, millis(100), false, &repos);
    sprites[0].animator.reset_current_state();
    assert_eq!(do_pending_resets(&mut sprites, true, &repos), Vec::new());
    assert!(sprites[0].animator.reset_state);
    assert_eq!(sprites[0].index, 11);
    assert_eq!(sprites[0].animator.duration_for_animation.elapsed, millis(100));
    assert_eq!(do_pending_resets(&mut sprites, false, &repos), vec![Ok(())]);
    assert!(!sprites[0].animator.reset_state);
    assert_eq!(sprites[0].index, 10);
}

#[test]
fn tick_runs_the_passes_in_order() {
    let repos = repository();
    let mut sprites = vec![sprite("quarter", true, &repos), sprite("walk", false, &repos)];
    sprites[0].animator.change_state(TextLike::Static("walk"));
    sprites[1].animator.reset_current_state();
    sprites[1].index = 13;
    let outcomes = tick(&mut sprites, millis(250), false, &repos);
    assert_eq!(
        outcomes.transitions,
        vec![
            Ok(Some(AnimationEnded {
                who: who(),
                progress: PercentScaleFactor::zero(),
                state: String::from("quarter")
            })),
            Ok(None)
        ]
    );
    assert_eq!(outcomes.frames, vec![Ok(None), Ok(None)]);
    assert_eq!(outcomes.resets, vec![Ok(()), Ok(())]);
    assert_eq!(sprites[0].animator.current_state(), "walk");
    assert_eq!(sprites[0].index, 11);
    assert_eq!(sprites[1].index, 10);
    assert!(!sprites[1].animator.reset_state);
    assert_eq!(sprites[1].animator.duration_for_animation, AnimationTimer::new(millis(250)));
}
