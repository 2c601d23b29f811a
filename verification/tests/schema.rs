use std::collections::HashMap;
use streamdeck_choir::{BuildError, Config, Gridsize, Instance, InstanceConfig, Page};

#[test]
fn default_gridsize_is_four_by_four() {
    assert_eq!(
        Gridsize::default(),
        Gridsize { min_column: 0, max_column: 3, min_row: 0, max_row: 3 }
    );
}

#[test]
fn default_page_is_empty() {
    assert_eq!(
        Page::default(),
        Page { name: "PAGE".to_string(), controls: HashMap::new(), grid_size: Gridsize::default() }
    );
}

#[test]
fn default_config_has_ninety_nine_empty_pages() {
    let config = Config::default();
    assert_eq!(config.version, 4);
    assert_eq!(config.kind, "full");
    assert!(config.instances.is_empty());
    assert_eq!(config.pages.len(), 99);
    for number in 1..=99usize {
        assert_eq!(config.pages[&number], Page::default());
    }
    assert!(!config.pages.contains_key(&0));
    assert!(!config.pages.contains_key(&100));
}

#[test]
fn new_instance_is_switched_on() {
    assert_eq!(
        Instance::new("behringer-x32", "x32", 2),
        Instance {
            instance_type: "behringer-x32".to_string(),
            label: "x32".to_string(),
            sort_order: 1,
            is_first_init: false,
            config: InstanceConfig { host: "10.0.0.50".to_string(), fade_fps: 10 },
            enabled: true,
            last_upgrade_index: 2,
        }
    );
    assert_eq!(Instance::new("", "", 0).last_upgrade_index, 0);
    assert_eq!(Instance::new("a", "b", 4294967295).last_upgrade_index, 4294967295);
}

#[test]
fn insert_instance_lists_the_device_last() {
    let mut config = Config::default();
    config.insert_instance("one".to_string(), Instance::new("a", "first", 1));
    config.insert_instance("two".to_string(), Instance::new("b", "second", 2));
    config.insert_instance("one".to_string(), Instance::new("c", "third", 3));
    assert_eq!(config.instances.len(), 3);
    assert_eq!(config.instances[2], ("one".to_string(), Instance::new("c", "third", 3)));
    let table: HashMap<String, Instance> = config.instances.iter().cloned().collect();
    assert_eq!(table.len(), 2);
    assert_eq!(table["one"], Instance::new("c", "third", 3));
    assert_eq!(table["two"], Instance::new("b", "second", 2));
    assert_eq!(config.pages.len(), 99);
    assert_eq!(config.version, 4);
}

#[test]
fn overflow_error_has_a_message() {
    let e = BuildError::PageNumberOverflow;
    assert_eq!(e.message(), "group position does not fit in a 32-bit page number");
    assert_eq!(e, BuildError::PageNumberOverflow);
}
