//! What the user writes down: groups of channels.

use vstd::prelude::*;

verus! {

/// A named group of channels. Each channel is a pair: the name to show, and
/// the number or path under which the mixer knows it.
#[derive(Debug, Clone, PartialEq, Eq)]
pub struct Group {
    pub name: String,
    pub channels: Vec<(String, String)>,
}

/// A `Group` as a value of mathematics.
pub struct GroupView {
    pub name: Seq<char>,
    pub channels: Seq<(Seq<char>, Seq<char>)>,
}

/// The views of the channels of a group, in the same order.
pub open spec fn channels_view(channels: Seq<(String, String)>) -> Seq<(Seq<char>, Seq<char>)> {
    channels.map_values(|c: (String, String)| (c.0@, c.1@))
}

impl View for Group {
    type V = GroupView;

    open spec fn view(&self) -> GroupView {
        GroupView { name: self.name@, channels: channels_view(self.channels@) }
    }
}

/// The views of a list of groups, in the same order.
pub open spec fn groups_view(groups: Seq<Group>) -> Seq<GroupView> {
    groups.map_values(|g: Group| g@)
}

/// The whole input: the groups, in the order of their pages.
#[derive(Debug, Clone, PartialEq, Eq)]
pub struct MyConfig {
    pub groups: Vec<Group>,
}

/// A `MyConfig` as a value of mathematics.
pub struct MyConfigView {
    pub groups: Seq<GroupView>,
}

impl View for MyConfig {
    type V = MyConfigView;

    open spec fn view(&self) -> MyConfigView {
        MyConfigView { groups: groups_view(self.groups@) }
    }
}

} // verus!
