use streamdeck_choir::{
    build_config, build_page, generate, Action, ButtonControl, Config, Control, Feedback, Group,
    Instance, MyConfig, Options, Page,
};
use streamdeck_choir::layout::{
    build_navigation_row, build_rotary_row, build_utility_row, build_view_row, group_page_number,
};
use streamdeck_choir::BuildError;

fn group(name: &str, channels: &[(&str, &str)]) -> Group {
    Group {
        name: name.to_string(),
        channels: channels.iter().map(|(n, c)| (n.to_string(), c.to_string())).collect(),
    }
}

fn numbered_groups(count: usize) -> MyConfig {
    MyConfig {
        groups: (0..count)
            .map(|i| group(&format!("Group {}", i), &[("First", "1"), ("Bus", "/bus/01")]))
            .collect(),
    }
}

fn band() -> MyConfig {
    MyConfig { groups: vec![group("Band", &[("Kick", "1"), ("Snare", "2")])] }
}

fn button_at(page: &Page, row: usize, column: usize) -> &ButtonControl {
    match &page.controls[&row][&column] {
        Control::button(button) => button,
        other => panic!("no button at {}/{}: {:?}", row, column, other),
    }
}

fn page_target(button: &ButtonControl) -> u32 {
    assert_eq!(button.steps.len(), 1);
    let down = &button.steps[&0].action_sets.down;
    assert_eq!(down.len(), 1);
    match &down[0] {
        Action::set_page_byindex(a) => {
            assert_eq!(a.options.page_variable, a.options.page.to_string());
            a.options.page
        }
        other => panic!("not a page change: {:?}", other),
    }
}

fn collect_ids(config: &Config) -> Vec<String> {
    let mut ids = Vec::new();
    for page in config.pages.values() {
        for row in page.controls.values() {
            for control in row.values() {
                if let Control::button(button) = control {
                    for feedback in &button.feedbacks {
                        match feedback {
                            Feedback::mute(f) => ids.push(f.id.clone()),
                        }
                    }
                    for step in button.steps.values() {
                        let sets = &step.action_sets;
                        let lists = [
                            Some(&sets.down),
                            Some(&sets.up),
                            sets.rotate_left.as_ref(),
                            sets.rotate_right.as_ref(),
                        ];
                        for list in lists.into_iter().flatten() {
                            for action in list {
                                ids.push(match action {
                                    Action::set_page_byindex(a) => a.id.clone(),
                                    Action::fad(a) => a.id.clone(),
                                    Action::fader_delta(a) => a.id.clone(),
                                    Action::go_scene(a) => a.id.clone(),
                                    Action::mute(a) => a.id.clone(),
                                });
                            }
                        }
                    }
                }
            }
        }
    }
    ids
}

#[test]
fn band_scenario_page_one() {
    let config = generate(&band()).unwrap();
    let page = &config.pages[&1];
    assert_eq!(page.name, "PAGE");
    assert_eq!(page.controls.len(), 4);

    let navigation = &page.controls[&0];
    assert_eq!(navigation.len(), 1);
    let tab = button_at(page, 0, 0);
    assert_eq!(tab.style.text, "Band");
    assert_eq!(page_target(tab), 1);

    let views = &page.controls[&2];
    let knobs = &page.controls[&3];
    assert_eq!(views.len(), 2);
    assert_eq!(knobs.len(), 2);

    let kick = button_at(page, 2, 0);
    let snare = button_at(page, 2, 1);
    assert_eq!(kick.style.text, "Kick\n$(x32:fader_ch_01)");
    assert_eq!(snare.style.text, "Snare\n$(x32:fader_ch_02)");
    match (&kick.feedbacks[..], &snare.feedbacks[..]) {
        ([Feedback::mute(k)], [Feedback::mute(s)]) => {
            assert_eq!(k.options.target, "/ch/01");
            assert_eq!(s.options.target, "/ch/02");
        }
        other => panic!("not one mute feedback each: {:?}", other),
    }

    let kick_knob = button_at(page, 3, 0);
    let snare_knob = button_at(page, 3, 1);
    assert_eq!(kick_knob.style.text, "Kick");
    assert_eq!(snare_knob.style.text, "Snare");
    for (knob, target) in [(kick_knob, "/ch/01"), (snare_knob, "/ch/02")] {
        let sets = &knob.steps[&0].action_sets;
        match (
            &sets.down[..],
            &sets.rotate_left.as_ref().unwrap()[..],
            &sets.rotate_right.as_ref().unwrap()[..],
        ) {
            ([Action::mute(m)], [Action::fader_delta(l)], [Action::fader_delta(r)]) => {
                assert_eq!(m.options.target, target);
                assert_eq!(m.options.mute, 2);
                assert_eq!(l.options.target, target);
                assert_eq!(r.options.target, target);
                assert_eq!(l.options.delta, -300);
                assert_eq!(r.options.delta, 300);
            }
            other => panic!("not a knob: {:?}", other),
        }
        assert_eq!(
            knob.options,
            Options { relative_delay: false, step_auto_progress: true, rotary_actions: Some(true) }
        );
    }
}

#[test]
fn band_scenario_other_pages_have_no_channel_rows() {
    let config = generate(&band()).unwrap();
    for number in 2..=99usize {
        let page = &config.pages[&number];
        assert_eq!(page.controls.len(), 2, "page {}", number);
        assert!(page.controls.contains_key(&0));
        assert!(page.controls.contains_key(&1));
        assert!(!page.controls.contains_key(&2));
        assert!(!page.controls.contains_key(&3));
        assert_eq!(button_at(page, 0, 0).style.text, "Band");
        assert_eq!(page_target(button_at(page, 0, 0)), 1);
    }
}

#[test]
fn ninety_nine_pages_for_no_group() {
    let config = generate(&MyConfig { groups: vec![] }).unwrap();
    assert_eq!(config.pages.len(), 99);
    for number in 1..=99usize {
        let page = &config.pages[&number];
        assert_eq!(page.controls.len(), 2);
        assert!(page.controls[&0].is_empty());
        assert_eq!(page.controls[&1].len(), 1);
    }
}

#[test]
fn ninety_nine_pages_for_one_group() {
    let config = generate(&numbered_groups(1)).unwrap();
    assert_eq!(config.pages.len(), 99);
    let mut numbers: Vec<usize> = config.pages.keys().copied().collect();
    numbers.sort();
    assert_eq!(numbers, (1..=99).collect::<Vec<usize>>());
}

#[test]
fn ninety_nine_pages_for_fifty_groups() {
    let config = generate(&numbered_groups(50)).unwrap();
    assert_eq!(config.pages.len(), 99);
    let mut numbers: Vec<usize> = config.pages.keys().copied().collect();
    numbers.sort();
    assert_eq!(numbers, (1..=99).collect::<Vec<usize>>());
    for number in 1..=99usize {
        let page = &config.pages[&number];
        assert_eq!(page.controls.contains_key(&2), number <= 50, "page {}", number);
        assert_eq!(page.controls.contains_key(&3), number <= 50, "page {}", number);
    }
}

#[test]
fn navigation_bar_has_one_button_for_each_group_on_every_page() {
    let input = numbered_groups(7);
    let config = generate(&input).unwrap();
    for number in 1..=99usize {
        let page = &config.pages[&number];
        let navigation = &page.controls[&0];
        assert_eq!(navigation.len(), 7);
        for column in 0..7usize {
            let tab = button_at(page, 0, column);
            assert_eq!(tab.style.text, format!("Group {}", column));
            assert_eq!(page_target(tab) as usize, column + 1);
            assert_eq!(tab.style.bgcolor, 0);
            assert_eq!(tab.style.color, 16777215);
            assert!(tab.feedbacks.is_empty());
            assert_eq!(tab.options, Options::default());
        }
    }
}

#[test]
fn owned_pages_show_the_channels_of_their_group() {
    let input = MyConfig {
        groups: vec![
            group("Drums", &[("Kick", "1"), ("Snare", "2"), ("Hat", "3")]),
            group("Empty", &[]),
            group("Buses", &[("Monitor", "/bus/01")]),
        ],
    };
    let config = generate(&input).unwrap();
    for (index, expected) in input.groups.iter().enumerate() {
        let page = &config.pages[&(index + 1)];
        let views = &page.controls[&2];
        let knobs = &page.controls[&3];
        assert_eq!(views.len(), expected.channels.len());
        assert_eq!(knobs.len(), expected.channels.len());
        for (column, (name, _)) in expected.channels.iter().enumerate() {
            assert!(button_at(page, 2, column).style.text.starts_with(&format!("{}\n", name)));
            assert_eq!(&button_at(page, 3, column).style.text, name);
        }
    }
    assert_eq!(button_at(&config.pages[&3], 2, 0).style.text, "Monitor\n$(x32:fader_bus_01)");
    for number in 4..=99usize {
        assert!(!config.pages[&number].controls.contains_key(&2));
        assert!(!config.pages[&number].controls.contains_key(&3));
    }
}

#[test]
fn groups_beyond_the_last_page_are_in_the_bar_only() {
    let input = numbered_groups(101);
    let config = generate(&input).unwrap();
    assert_eq!(config.pages.len(), 99);
    assert!(!config.pages.contains_key(&100));
    assert!(!config.pages.contains_key(&101));
    for number in [1usize, 50, 99] {
        let page = &config.pages[&number];
        assert_eq!(page.controls[&0].len(), 101);
        assert_eq!(page_target(button_at(page, 0, 99)), 100);
        assert_eq!(page_target(button_at(page, 0, 100)), 101);
        assert_eq!(button_at(page, 0, 100).style.text, "Group 100");
        assert_eq!(page.controls[&2].len(), 2);
        assert_eq!(page.controls[&3].len(), 2);
    }
}

#[test]
fn reset_button_recalls_scene_zero_and_silences_the_main_bus() {
    let config = build_config(&band(), "mixer-id").unwrap();
    for number in [1usize, 2, 99] {
        let page = &config.pages[&number];
        assert_eq!(page.controls[&1].len(), 1);
        let reset = button_at(page, 1, 3);
        assert_eq!(reset.style.text, "Reset To Defaults");
        assert_eq!(reset.style.bgcolor, 0xff0000);
        assert_eq!(reset.style.color, 16777215);
        assert!(reset.feedbacks.is_empty());
        assert_eq!(reset.steps.len(), 1);
        let sets = &reset.steps[&0].action_sets;
        assert!(sets.up.is_empty());
        assert_eq!(sets.rotate_left, None);
        assert_eq!(sets.rotate_right, None);
        match &sets.down[..] {
            [Action::go_scene(scene), Action::fad(fader)] => {
                assert_eq!(scene.instance, "mixer-id");
                assert_eq!(scene.options.scene, 0);
                assert_eq!(scene.delay, 0);
                assert_eq!(fader.instance, "mixer-id");
                assert_eq!(fader.options.target, "/main/st");
                assert_eq!(fader.options.fad, 0);
                assert_eq!(fader.options.fade_duration, 0);
                assert_eq!(fader.options.fade_algorithm, "linear");
                assert_eq!(fader.options.fade_type, "ease_in");
                assert_eq!(fader.delay, 0);
            }
            other => panic!("not the two reset actions: {:?}", other),
        }
    }
}

#[test]
fn build_config_lists_the_mixer_as_the_one_device() {
    let config = build_config(&band(), "mixer-id").unwrap();
    assert_eq!(config.version, 4);
    assert_eq!(config.kind, "full");
    assert_eq!(
        config.instances,
        vec![("mixer-id".to_string(), Instance::new("behringer-x32", "x32", 2))]
    );
}

#[test]
fn build_config_sends_every_mixer_action_to_the_mixer() {
    let config = build_config(&band(), "mixer-id").unwrap();
    let page = &config.pages[&1];
    match &button_at(page, 2, 0).feedbacks[0] {
        Feedback::mute(f) => assert_eq!(f.instance_id, "mixer-id"),
    }
    let sets = &button_at(page, 3, 1).steps[&0].action_sets;
    match (&sets.down[0], &sets.rotate_left.as_ref().unwrap()[0]) {
        (Action::mute(m), Action::fader_delta(l)) => {
            assert_eq!(m.instance, "mixer-id");
            assert_eq!(l.instance, "mixer-id");
        }
        other => panic!("not a knob: {:?}", other),
    }
    match &button_at(page, 0, 0).steps[&0].action_sets.down[0] {
        Action::set_page_byindex(a) => assert_eq!(a.instance, "internal"),
        other => panic!("not a page change: {:?}", other),
    }
}

#[test]
fn generate_draws_an_identifier_for_the_mixer() {
    let config = generate(&band()).unwrap();
    assert_eq!(config.instances.len(), 1);
    let (id, instance) = &config.instances[0];
    let parsed = uuid::Uuid::parse_str(id).unwrap();
    assert_eq!(parsed.get_version_num(), 4);
    assert_eq!(&parsed.hyphenated().to_string(), id);
    assert_eq!(instance, &Instance::new("behringer-x32", "x32", 2));
    match &button_at(&config.pages[&1], 3, 0).steps[&0].action_sets.down[0] {
        Action::mute(m) => assert_eq!(&m.instance, id),
        other => panic!("not a mute: {:?}", other),
    }
    let again = generate(&band()).unwrap();
    assert_ne!(again.instances[0].0, config.instances[0].0);
}

#[test]
fn every_identifier_is_a_random_uuid_and_none_comes_twice() {
    let config = generate(&numbered_groups(3)).unwrap();
    let ids = collect_ids(&config);
    // On each page: 3 tabs, 2 reset actions; on each owned page 2 feedbacks
    // and 2 knobs with 3 actions each.
    assert_eq!(ids.len(), 99 * (3 + 2) + 3 * (2 + 2 * 3));
    for id in &ids {
        let parsed = uuid::Uuid::parse_str(id).unwrap();
        assert_eq!(parsed.get_version_num(), 4);
        assert_eq!(&parsed.hyphenated().to_string(), id);
    }
    let mut distinct = ids.clone();
    distinct.sort();
    distinct.dedup();
    assert_eq!(distinct.len(), ids.len());
}

#[test]
fn build_page_outside_the_page_numbers() {
    let input = band();
    let zero = build_page(&input.groups, 0, "mixer-id").unwrap();
    assert_eq!(zero.controls.len(), 2);
    let far = build_page(&input.groups, usize::MAX, "mixer-id").unwrap();
    assert_eq!(far.controls.len(), 2);
    let first = build_page(&input.groups, 1, "mixer-id").unwrap();
    assert_eq!(first.controls.len(), 4);
    assert_eq!(first.name, "PAGE");
    assert_eq!(first.grid_size, Page::default().grid_size);
}

#[test]
fn rows_are_built_one_by_one() {
    let input = band();
    let navigation = build_navigation_row(&input.groups).unwrap();
    assert_eq!(navigation.len(), 1);
    let utility = build_utility_row("mixer-id");
    assert_eq!(utility.len(), 1);
    assert!(utility.contains_key(&3));
    let views = build_view_row(&input.groups[0], "mixer-id").unwrap();
    assert_eq!(views.len(), 2);
    assert!(views.contains_key(&0) && views.contains_key(&1));
    let knobs = build_rotary_row(&input.groups[0], "mixer-id");
    assert_eq!(knobs.len(), 2);
    assert!(knobs.contains_key(&0) && knobs.contains_key(&1));
}

#[test]
fn channel_tokens_of_every_kind_in_one_group() {
    let input = MyConfig {
        groups: vec![group("Mix", &[("A", "7"), ("B", "1/2"), ("C", "+40"), ("D", "-3")])],
    };
    let page = build_page(&input.groups, 1, "mixer-id").unwrap();
    let labels: Vec<&str> = (0..4).map(|c| button_at(&page, 2, c).style.text.as_str()).collect();
    assert_eq!(
        labels,
        vec![
            "A\n$(x32:fader_ch_07)",
            "B\n$(x32:fader1_2)",
            "C\n$(x32:fader_ch_40)",
            "D\n$(x32:fader-3)"
        ]
    );
    let targets: Vec<String> = (0..4)
        .map(|c| match &button_at(&page, 3, c).steps[&0].action_sets.down[0] {
            Action::mute(m) => m.options.target.clone(),
            other => panic!("not a mute: {:?}", other),
        })
        .collect();
    assert_eq!(targets, vec!["/ch/07", "1/2", "/ch/40", "-3"]);
}

#[test]
fn group_page_number_counts_from_one() {
    assert_eq!(group_page_number(0), Ok(1));
    assert_eq!(group_page_number(1), Ok(2));
    assert_eq!(group_page_number(98), Ok(99));
    assert_eq!(group_page_number(99), Ok(100));
    assert_eq!(group_page_number(4294967294), Ok(4294967295));
}

#[test]
fn group_page_number_overflows_beyond_32_bits() {
    assert_eq!(group_page_number(4294967295), Err(BuildError::PageNumberOverflow));
    assert_eq!(group_page_number(usize::MAX), Err(BuildError::PageNumberOverflow));
}
