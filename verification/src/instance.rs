//! The devices that a configuration talks to.

use vstd::prelude::*;

verus! {

/// How a device is reached.
#[derive(Debug, Clone, PartialEq, Eq)]
pub struct InstanceConfig {
    pub host: String,
    pub fade_fps: u32,
}

/// An `InstanceConfig` as a value of mathematics.
pub struct InstanceConfigView {
    pub host: Seq<char>,
    pub fade_fps: u32,
}

impl View for InstanceConfig {
    type V = InstanceConfigView;

    open spec fn view(&self) -> InstanceConfigView {
        InstanceConfigView { host: self.host@, fade_fps: self.fade_fps }
    }
}

/// One device: its kind, its name, and how it is reached.
#[derive(Debug, Clone, PartialEq, Eq)]
pub struct Instance {
    pub instance_type: String,
    pub label: String,
    pub sort_order: u32,
    pub is_first_init: bool,
    pub config: InstanceConfig,
    pub enabled: bool,
    pub last_upgrade_index: u32,
}

/// An `Instance` as a value of mathematics.
pub struct InstanceView {
    pub instance_type: Seq<char>,
    pub label: Seq<char>,
    pub sort_order: u32,
    pub is_first_init: bool,
    pub config: InstanceConfigView,
    pub enabled: bool,
    pub last_upgrade_index: u32,
}

impl View for Instance {
    type V = InstanceView;

    open spec fn view(&self) -> InstanceView {
        InstanceView {
            instance_type: self.instance_type@,
            label: self.label@,
            sort_order: self.sort_order,
            is_first_init: self.is_first_init,
            config: self.config@,
            enabled: self.enabled,
            last_upgrade_index: self.last_upgrade_index,
        }
    }
}

impl InstanceView {
    /// A device of the kind `instance_type` under the name `label`: switched
    /// on, not at its first start, at the address 10.0.0.50, with a fade
    /// rate of 10.
    pub open spec fn new(instance_type: Seq<char>, label: Seq<char>, upindex: u32) -> InstanceView {
        InstanceView {
            instance_type,
            label,
            sort_order: 1,
            is_first_init: false,
            config: InstanceConfigView { host: "10.0.0.50"@, fade_fps: 10 },
            enabled: true,
            last_upgrade_index: upindex,
        }
    }
}

impl Instance {
    /// A device of the kind `instance_type` under the name `label`, with
    /// `upindex` as the index of the last upgrade that it went through.
    pub fn new(instance_type: &str, label: &str, upindex: u32) -> (r: Self)
        ensures
            r@ == InstanceView::new(instance_type@, label@, upindex),
    {
        Self {
            instance_type: instance_type.to_string(),
            label: label.to_string(),
            last_upgrade_index: upindex,
            sort_order: 1,
            is_first_init: false,
            config: InstanceConfig { host: "10.0.0.50".to_string(), fade_fps: 10 },
            enabled: true,
        }
    }
}

} // verus!
