use streamdeck_choir::{
    Action, ChannelPath, FadAction, FadOptions, FadDeltaOptions, FaderDeltaAction, Feedback,
    FeedbackMute, FeedbackMuteOptions, ColorStyle, GoSceneAction, GoSceneOptions, MuteAction,
    MuteOptions, PageOptions, SetPageByIndexAction, Step,
};

fn is_random_uuid(id: &str) -> bool {
    match uuid::Uuid::parse_str(id) {
        Ok(parsed) => {
            parsed.get_version_num() == 4
                && parsed.get_variant() == uuid::Variant::RFC4122
                && parsed.hyphenated().to_string() == id
        }
        Err(_) => false,
    }
}

fn id_of(action: &Action) -> &str {
    match action {
        Action::set_page_byindex(a) => &a.id,
        Action::fad(a) => &a.id,
        Action::fader_delta(a) => &a.id,
        Action::go_scene(a) => &a.id,
        Action::mute(a) => &a.id,
    }
}

#[test]
fn mute_action_sets_the_mute_state_of_the_channel() {
    let action = MuteAction::new("mixer", &ChannelPath::new("3"));
    assert!(is_random_uuid(&action.id));
    assert_eq!(
        action,
        MuteAction {
            id: action.id.clone(),
            instance: "mixer".to_string(),
            options: MuteOptions { target: "/ch/03".to_string(), mute: 2 },
            delay: 0,
        }
    );
}

#[test]
fn mute_action_on_a_path() {
    let action = MuteAction::new("mixer", &ChannelPath::new("/bus/04"));
    assert_eq!(action.options.target, "/bus/04");
    assert_eq!(action.options.mute, 2);
    assert_eq!(action.instance, "mixer");
    assert_eq!(action.delay, 0);
}

#[test]
fn go_to_scene_recalls_the_scene() {
    let action = Action::go_to_scene("mixer", 7);
    assert!(is_random_uuid(id_of(&action)));
    assert_eq!(
        action,
        Action::go_scene(GoSceneAction {
            id: id_of(&action).to_string(),
            instance: "mixer".to_string(),
            options: GoSceneOptions { scene: 7 },
            delay: 0,
        })
    );
}

#[test]
fn set_fader_goes_to_the_level() {
    let action = Action::set_fader("mixer", &ChannelPath::new("/main/st"), 0);
    assert!(is_random_uuid(id_of(&action)));
    assert_eq!(
        action,
        Action::fad(FadAction {
            id: id_of(&action).to_string(),
            instance: "mixer".to_string(),
            options: FadOptions {
                target: "/main/st".to_string(),
                fad: 0,
                fade_duration: 0,
                fade_algorithm: "linear".to_string(),
                fade_type: "ease_in".to_string(),
            },
            delay: 0,
        })
    );
    let half = FadAction::set_fader("mixer", &ChannelPath::new("12"), 500);
    assert_eq!(half.options.fad, 500);
    assert_eq!(half.options.target, "/ch/12");
}

#[test]
fn fade_channel_moves_by_the_step() {
    let action = Action::fade_channel("mixer", &ChannelPath::new("5"), -300);
    assert!(is_random_uuid(id_of(&action)));
    assert_eq!(
        action,
        Action::fader_delta(FaderDeltaAction {
            id: id_of(&action).to_string(),
            instance: "mixer".to_string(),
            options: FadDeltaOptions {
                target: "/ch/05".to_string(),
                delta: -300,
                fade_duration: 0,
                fade_algorithm: "linear".to_string(),
                fade_type: "ease_in".to_string(),
            },
            delay: 0,
        })
    );
    let up = FaderDeltaAction::fade_channel("mixer", &ChannelPath::new("1/2"), 300);
    assert_eq!(up.options.delta, 300);
    assert_eq!(up.options.target, "1/2");
}

#[test]
fn page_change_names_the_page_twice() {
    let action = SetPageByIndexAction::new(12);
    assert!(is_random_uuid(&action.id));
    assert_eq!(
        action,
        SetPageByIndexAction {
            id: action.id.clone(),
            instance: "internal".to_string(),
            options: PageOptions {
                controller: 0,
                page_from_variable: false,
                page: 12,
                page_variable: "12".to_string(),
            },
            delay: 0,
        }
    );
    assert_eq!(SetPageByIndexAction::new(4294967295).options.page_variable, "4294967295");
    assert_eq!(SetPageByIndexAction::new(0).options.page_variable, "0");
}

#[test]
fn mute_feedback_is_black_on_red() {
    let feedback = FeedbackMute::new("mixer", &ChannelPath::new("8"));
    assert!(is_random_uuid(&feedback.id));
    assert_eq!(
        feedback,
        FeedbackMute {
            id: feedback.id.clone(),
            instance_id: "mixer".to_string(),
            options: FeedbackMuteOptions { target: "/ch/08".to_string(), state: true },
            style: ColorStyle { color: 0, bgcolor: 0xff0000 },
        }
    );
    assert_eq!(Feedback::mute(feedback.clone()), Feedback::mute(feedback));
}

#[test]
fn identifiers_are_drawn_anew_each_time() {
    let first = MuteAction::new("mixer", &ChannelPath::new("1"));
    let second = MuteAction::new("mixer", &ChannelPath::new("1"));
    assert_ne!(first.id, second.id);
    assert_ne!(first.id, "mixer");
    assert_ne!(first.id, "1");
    assert_eq!(first.id.len(), 36);
    let scene = Action::go_to_scene("mixer", 0);
    assert_ne!(id_of(&scene), first.id);
}

#[test]
fn page_select_step_fires_one_page_change_on_press() {
    let step = Step::new_page_select(3);
    assert_eq!(step.action_sets.down.len(), 1);
    assert!(step.action_sets.up.is_empty());
    assert_eq!(step.action_sets.rotate_left, None);
    assert_eq!(step.action_sets.rotate_right, None);
    assert!(step.options.run_while_held.is_empty());
    match &step.action_sets.down[0] {
        Action::set_page_byindex(a) => {
            assert!(is_random_uuid(&a.id));
            assert_eq!(a.instance, "internal");
            assert_eq!(a.options.page, 3);
            assert_eq!(a.options.page_variable, "3");
            assert_eq!(a.options.controller, 0);
            assert!(!a.options.page_from_variable);
            assert_eq!(a.delay, 0);
        }
        other => panic!("not a page change: {:?}", other),
    }
}

#[test]
fn fade_step_turns_left_down_and_right_up() {
    let step = Step::fade_channel("mixer", &ChannelPath::new("4"), 300);
    assert!(step.action_sets.down.is_empty());
    assert!(step.action_sets.up.is_empty());
    let left = step.action_sets.rotate_left.as_ref().unwrap();
    let right = step.action_sets.rotate_right.as_ref().unwrap();
    assert_eq!(left.len(), 1);
    assert_eq!(right.len(), 1);
    match (&left[0], &right[0]) {
        (Action::fader_delta(l), Action::fader_delta(r)) => {
            assert_eq!(l.options.delta, -300);
            assert_eq!(r.options.delta, 300);
            assert_eq!(l.options.target, "/ch/04");
            assert_eq!(r.options.target, "/ch/04");
            assert_eq!(l.instance, "mixer");
            assert_eq!(r.instance, "mixer");
            assert!(is_random_uuid(&l.id));
            assert!(is_random_uuid(&r.id));
            assert_ne!(l.id, r.id);
        }
        other => panic!("not two fader moves: {:?}", other),
    }
}

#[test]
fn fade_step_takes_every_step_size() {
    for step_size in [0, 1, -1, 300, -300, i32::MAX, i32::MIN] {
        let step = Step::fade_channel("mixer", &ChannelPath::new("4"), step_size);
        let left = step.action_sets.rotate_left.unwrap();
        let right = step.action_sets.rotate_right.unwrap();
        match (&left[0], &right[0]) {
            (Action::fader_delta(l), Action::fader_delta(r)) => {
                assert_eq!(l.options.delta, -(step_size as i64));
                assert_eq!(r.options.delta, step_size as i64);
                assert_eq!(l.options.delta + r.options.delta, 0);
            }
            other => panic!("not two fader moves: {:?}", other),
        }
    }
}

#[test]
fn default_step_does_nothing() {
    let step = Step::default();
    assert!(step.action_sets.down.is_empty());
    assert!(step.action_sets.up.is_empty());
    assert_eq!(step.action_sets.rotate_left, None);
    assert_eq!(step.action_sets.rotate_right, None);
    assert!(step.options.run_while_held.is_empty());
}
