//! What a button does when it is pressed or turned.
//!
//! Every action carries an identifier drawn at random. A model of an action,
//! as the spec functions here give it, has the empty identifier;
//! `without_id` empties the identifier of a view so that the two can be
//! compared.

use crate::channel::{target_text, ChannelPath};
use crate::ident::{is_uuid_text, new_id};
use crate::text::{decimal, decimal_string};
use vstd::prelude::*;

verus! {

/// The instance that page changes are sent to.
pub open spec fn internal_instance() -> Seq<char> {
    "internal"@
}

/// Where a page change leads.
#[derive(Debug, Clone, PartialEq, Eq)]
pub struct PageOptions {
    pub controller: u32,
    pub page_from_variable: bool,
    pub page: u32,
    pub page_variable: String,
}

/// A `PageOptions` as a value of mathematics.
pub struct PageOptionsView {
    pub controller: u32,
    pub page_from_variable: bool,
    pub page: u32,
    pub page_variable: Seq<char>,
}

impl View for PageOptions {
    type V = PageOptionsView;

    open spec fn view(&self) -> PageOptionsView {
        PageOptionsView {
            controller: self.controller,
            page_from_variable: self.page_from_variable,
            page: self.page,
            page_variable: self.page_variable@,
        }
    }
}

/// Shows the page with a given number.
#[derive(Debug, Clone, PartialEq, Eq)]
pub struct SetPageByIndexAction {
    pub id: String,
    pub instance: String,
    pub options: PageOptions,
    pub delay: u32,
}

/// A `SetPageByIndexAction` as a value of mathematics.
pub struct SetPageByIndexActionView {
    pub id: Seq<char>,
    pub instance: Seq<char>,
    pub options: PageOptionsView,
    pub delay: u32,
}

impl View for SetPageByIndexAction {
    type V = SetPageByIndexActionView;

    open spec fn view(&self) -> SetPageByIndexActionView {
        SetPageByIndexActionView {
            id: self.id@,
            instance: self.instance@,
            options: self.options@,
            delay: self.delay,
        }
    }
}

impl SetPageByIndexActionView {
    /// The change to page `page`, given as a number and not by a variable,
    /// on controller 0, at once.
    pub open spec fn to_page(page: u32) -> SetPageByIndexActionView {
        SetPageByIndexActionView {
            id: Seq::empty(),
            instance: internal_instance(),
            options: PageOptionsView {
                controller: 0,
                page_from_variable: false,
                page,
                page_variable: decimal(page as nat),
            },
            delay: 0,
        }
    }

    /// The same with the empty identifier in the place of its own.
    pub open spec fn without_id(self) -> SetPageByIndexActionView {
        SetPageByIndexActionView { id: Seq::empty(), ..self }
    }
}

impl SetPageByIndexAction {
    /// A change to page `page`, under a new identifier.
    pub fn new(page: u32) -> (r: Self)
        ensures
            r@.without_id() == SetPageByIndexActionView::to_page(page),
            is_uuid_text(r@.id),
    {
        Self {
            id: new_id(),
            instance: "internal".to_string(),
            options: PageOptions {
                controller: 0,
                page_from_variable: false,
                page,
                page_variable: decimal_string(page as u64),
            },
            delay: 0,
        }
    }
}

/// How a fader is set: the channel, the level in thousandths, and the fade.
#[derive(Debug, Clone, PartialEq, Eq)]
pub struct FadOptions {
    pub target: String,
    pub fad: i64,
    pub fade_duration: u32,
    pub fade_algorithm: String,
    pub fade_type: String,
}

/// A `FadOptions` as a value of mathematics.
pub struct FadOptionsView {
    pub target: Seq<char>,
    pub fad: i64,
    pub fade_duration: u32,
    pub fade_algorithm: Seq<char>,
    pub fade_type: Seq<char>,
}

impl View for FadOptions {
    type V = FadOptionsView;

    open spec fn view(&self) -> FadOptionsView {
        FadOptionsView {
            target: self.target@,
            fad: self.fad,
            fade_duration: self.fade_duration,
            fade_algorithm: self.fade_algorithm@,
            fade_type: self.fade_type@,
        }
    }
}

/// Sets a fader to a level.
#[derive(Debug, Clone, PartialEq, Eq)]
pub struct FadAction {
    pub id: String,
    pub instance: String,
    pub options: FadOptions,
    pub delay: u32,
}

/// A `FadAction` as a value of mathematics.
pub struct FadActionView {
    pub id: Seq<char>,
    pub instance: Seq<char>,
    pub options: FadOptionsView,
    pub delay: u32,
}

impl View for FadAction {
    type V = FadActionView;

    open spec fn view(&self) -> FadActionView {
        FadActionView {
            id: self.id@,
            instance: self.instance@,
            options: self.options@,
            delay: self.delay,
        }
    }
}

impl FadActionView {
    /// The fader of the channel `token` on the mixer `x32_id` goes to
    /// `value` thousandths, at once and without a fade.
    pub open spec fn set_fader(x32_id: Seq<char>, token: Seq<char>, value: i64) -> FadActionView {
        FadActionView {
            id: Seq::empty(),
            instance: x32_id,
            options: FadOptionsView {
                target: target_text(token),
                fad: value,
                fade_duration: 0,
                fade_algorithm: "linear"@,
                fade_type: "ease_in"@,
            },
            delay: 0,
        }
    }

    /// The same with the empty identifier in the place of its own.
    pub open spec fn without_id(self) -> FadActionView {
        FadActionView { id: Seq::empty(), ..self }
    }
}

impl FadAction {
    /// Sets the fader of `channel` to `value` thousandths, under a new
    /// identifier.
    pub fn set_fader(x32_id: &str, channel: &ChannelPath, value: i64) -> (r: Self)
        ensures
            r@.without_id() == FadActionView::set_fader(x32_id@, channel@, value),
            is_uuid_text(r@.id),
    {
        Self {
            id: new_id(),
            instance: x32_id.to_string(),
            options: FadOptions {
                target: channel.set_string(),
                fad: value,
                fade_duration: 0,
                fade_algorithm: "linear".to_string(),
                fade_type: "ease_in".to_string(),
            },
            delay: 0,
        }
    }
}

/// How a fader is moved: the channel, the change in thousandths, and the
/// fade.
#[derive(Debug, Clone, PartialEq, Eq)]
pub struct FadDeltaOptions {
    pub target: String,
    pub delta: i64,
    pub fade_duration: u32,
    pub fade_algorithm: String,
    pub fade_type: String,
}

/// A `FadDeltaOptions` as a value of mathematics.
pub struct FadDeltaOptionsView {
    pub target: Seq<char>,
    pub delta: i64,
    pub fade_duration: u32,
    pub fade_algorithm: Seq<char>,
    pub fade_type: Seq<char>,
}

impl View for FadDeltaOptions {
    type V = FadDeltaOptionsView;

    open spec fn view(&self) -> FadDeltaOptionsView {
        FadDeltaOptionsView {
            target: self.target@,
            delta: self.delta,
            fade_duration: self.fade_duration,
            fade_algorithm: self.fade_algorithm@,
            fade_type: self.fade_type@,
        }
    }
}

/// Moves a fader up or down.
#[derive(Debug, Clone, PartialEq, Eq)]
pub struct FaderDeltaAction {
    pub id: String,
    pub instance: String,
    pub options: FadDeltaOptions,
    pub delay: u32,
}

/// A `FaderDeltaAction` as a value of mathematics.
pub struct FaderDeltaActionView {
    pub id: Seq<char>,
    pub instance: Seq<char>,
    pub options: FadDeltaOptionsView,
    pub delay: u32,
}

impl View for FaderDeltaAction {
    type V = FaderDeltaActionView;

    open spec fn view(&self) -> FaderDeltaActionView {
        FaderDeltaActionView {
            id: self.id@,
            instance: self.instance@,
            options: self.options@,
            delay: self.delay,
        }
    }
}

impl FaderDeltaActionView {
    /// The fader of the channel `token` on the mixer `x32_id` moves by
    /// `step` thousandths, at once and without a fade.
    pub open spec fn fade_channel(
        x32_id: Seq<char>,
        token: Seq<char>,
        step: i64,
    ) -> FaderDeltaActionView {
        FaderDeltaActionView {
            id: Seq::empty(),
            instance: x32_id,
            options: FadDeltaOptionsView {
                target: target_text(token),
                delta: step,
                fade_duration: 0,
                fade_algorithm: "linear"@,
                fade_type: "ease_in"@,
            },
            delay: 0,
        }
    }

    /// The same with the empty identifier in the place of its own.
    pub open spec fn without_id(self) -> FaderDeltaActionView {
        FaderDeltaActionView { id: Seq::empty(), ..self }
    }
}

impl FaderDeltaAction {
    /// Moves the fader of `channel` by `step` thousandths, under a new
    /// identifier.
    pub fn fade_channel(x32_id: &str, channel: &ChannelPath, step: i64) -> (r: Self)
        ensures
            r@.without_id() == FaderDeltaActionView::fade_channel(x32_id@, channel@, step),
            is_uuid_text(r@.id),
    {
        Self {
            id: new_id(),
            instance: x32_id.to_string(),
            options: FadDeltaOptions {
                target: channel.set_string(),
                delta: step,
                fade_duration: 0,
                fade_algorithm: "linear".to_string(),
                fade_type: "ease_in".to_string(),
            },
            delay: 0,
        }
    }
}

/// The scene that is recalled.
#[derive(Debug, Clone, Copy, PartialEq, Eq)]
pub struct GoSceneOptions {
    pub scene: u32,
}

/// Recalls a scene of the mixer.
#[derive(Debug, Clone, PartialEq, Eq)]
pub struct GoSceneAction {
    pub id: String,
    pub instance: String,
    pub options: GoSceneOptions,
    pub delay: u32,
}

/// A `GoSceneAction` as a value of mathematics.
pub struct GoSceneActionView {
    pub id: Seq<char>,
    pub instance: Seq<char>,
    pub options: GoSceneOptions,
    pub delay: u32,
}

impl View for GoSceneAction {
    type V = GoSceneActionView;

    open spec fn view(&self) -> GoSceneActionView {
        GoSceneActionView {
            id: self.id@,
            instance: self.instance@,
            options: self.options,
            delay: self.delay,
        }
    }
}

impl GoSceneActionView {
    /// The mixer `x32_id` recalls the scene `scene`, at once.
    pub open spec fn go_to_scene(x32_id: Seq<char>, scene: u32) -> GoSceneActionView {
        GoSceneActionView {
            id: Seq::empty(),
            instance: x32_id,
            options: GoSceneOptions { scene },
            delay: 0,
        }
    }

    /// The same with the empty identifier in the place of its own.
    pub open spec fn without_id(self) -> GoSceneActionView {
        GoSceneActionView { id: Seq::empty(), ..self }
    }
}

/// Which channel has its mute state set, and to what.
#[derive(Debug, Clone, PartialEq, Eq)]
pub struct MuteOptions {
    pub target: String,
    pub mute: u32,
}

/// A `MuteOptions` as a value of mathematics.
pub struct MuteOptionsView {
    pub target: Seq<char>,
    pub mute: u32,
}

impl View for MuteOptions {
    type V = MuteOptionsView;

    open spec fn view(&self) -> MuteOptionsView {
        MuteOptionsView { target: self.target@, mute: self.mute }
    }
}

/// The mute state that every mute action asks for.
pub const MUTE_STATE: u32 = 2;

/// Sets the mute state of a channel.
#[derive(Debug, Clone, PartialEq, Eq)]
pub struct MuteAction {
    pub id: String,
    pub instance: String,
    pub options: MuteOptions,
    pub delay: u32,
}

/// A `MuteAction` as a value of mathematics.
pub struct MuteActionView {
    pub id: Seq<char>,
    pub instance: Seq<char>,
    pub options: MuteOptionsView,
    pub delay: u32,
}

impl View for MuteAction {
    type V = MuteActionView;

    open spec fn view(&self) -> MuteActionView {
        MuteActionView {
            id: self.id@,
            instance: self.instance@,
            options: self.options@,
            delay: self.delay,
        }
    }
}

impl MuteActionView {
    /// The channel `token` on the mixer `x32_id` has its mute state set, at
    /// once.
    pub open spec fn of_channel(x32_id: Seq<char>, token: Seq<char>) -> MuteActionView {
        MuteActionView {
            id: Seq::empty(),
            instance: x32_id,
            options: MuteOptionsView { target: target_text(token), mute: MUTE_STATE },
            delay: 0,
        }
    }

    /// The same with the empty identifier in the place of its own.
    pub open spec fn without_id(self) -> MuteActionView {
        MuteActionView { id: Seq::empty(), ..self }
    }
}

impl MuteAction {
    /// Sets the mute state of `channel`, under a new identifier.
    pub fn new(x32_id: &str, channel: &ChannelPath) -> (r: Self)
        ensures
            r@.without_id() == MuteActionView::of_channel(x32_id@, channel@),
            is_uuid_text(r@.id),
    {
        Self {
            id: new_id(),
            instance: x32_id.to_string(),
            options: MuteOptions { target: channel.set_string(), mute: MUTE_STATE },
            delay: 0,
        }
    }
}

/// One thing that a button does.
#[derive(Debug, Clone, PartialEq, Eq)]
#[allow(non_camel_case_types)]
pub enum Action {
    set_page_byindex(SetPageByIndexAction),
    fad(FadAction),
    fader_delta(FaderDeltaAction),
    go_scene(GoSceneAction),
    mute(MuteAction),
}

/// An `Action` as a value of mathematics.
#[allow(non_camel_case_types)]
pub enum ActionView {
    set_page_byindex(SetPageByIndexActionView),
    fad(FadActionView),
    fader_delta(FaderDeltaActionView),
    go_scene(GoSceneActionView),
    mute(MuteActionView),
}

impl View for Action {
    type V = ActionView;

    open spec fn view(&self) -> ActionView {
        match self {
            Action::set_page_byindex(a) => ActionView::set_page_byindex(a@),
            Action::fad(a) => ActionView::fad(a@),
            Action::fader_delta(a) => ActionView::fader_delta(a@),
            Action::go_scene(a) => ActionView::go_scene(a@),
            Action::mute(a) => ActionView::mute(a@),
        }
    }
}

impl ActionView {
    /// The identifier of the action.
    pub open spec fn id(self) -> Seq<char> {
        match self {
            ActionView::set_page_byindex(a) => a.id,
            ActionView::fad(a) => a.id,
            ActionView::fader_delta(a) => a.id,
            ActionView::go_scene(a) => a.id,
            ActionView::mute(a) => a.id,
        }
    }

    /// The action with the empty identifier in the place of its own.
    pub open spec fn without_id(self) -> ActionView {
        match self {
            ActionView::set_page_byindex(a) => ActionView::set_page_byindex(a.without_id()),
            ActionView::fad(a) => ActionView::fad(a.without_id()),
            ActionView::fader_delta(a) => ActionView::fader_delta(a.without_id()),
            ActionView::go_scene(a) => ActionView::go_scene(a.without_id()),
            ActionView::mute(a) => ActionView::mute(a.without_id()),
        }
    }

    /// The model of a change to page `page`.
    pub open spec fn to_page(page: u32) -> ActionView {
        ActionView::set_page_byindex(SetPageByIndexActionView::to_page(page))
    }

    /// The model of a fader that moves by `step` thousandths.
    pub open spec fn fade_channel(x32_id: Seq<char>, token: Seq<char>, step: i64) -> ActionView {
        ActionView::fader_delta(FaderDeltaActionView::fade_channel(x32_id, token, step))
    }

    /// The model of a fader that goes to `value` thousandths.
    pub open spec fn set_fader(x32_id: Seq<char>, token: Seq<char>, value: i64) -> ActionView {
        ActionView::fad(FadActionView::set_fader(x32_id, token, value))
    }

    /// The model of a scene recall.
    pub open spec fn go_to_scene(x32_id: Seq<char>, scene: u32) -> ActionView {
        ActionView::go_scene(GoSceneActionView::go_to_scene(x32_id, scene))
    }

    /// The model of a mute action.
    pub open spec fn mute_channel(x32_id: Seq<char>, token: Seq<char>) -> ActionView {
        ActionView::mute(MuteActionView::of_channel(x32_id, token))
    }
}

/// The views of a list of actions, in the same order.
pub open spec fn actions_view(actions: Seq<Action>) -> Seq<ActionView> {
    actions.map_values(|a: Action| a@)
}

/// A list of actions with every identifier emptied.
pub open spec fn actions_without_ids(actions: Seq<ActionView>) -> Seq<ActionView> {
    actions.map_values(|a: ActionView| a.without_id())
}

/// Whether every action of the list has the text of a UUID as its
/// identifier.
pub open spec fn actions_have_uuids(actions: Seq<ActionView>) -> bool {
    forall|i: int| 0 <= i < actions.len() ==> is_uuid_text((#[trigger] actions[i]).id())
}

impl Action {
    /// Moves the fader of `channel` by `step` thousandths.
    pub fn fade_channel(x32_id: &str, channel: &ChannelPath, step: i64) -> (r: Self)
        ensures
            r@.without_id() == ActionView::fade_channel(x32_id@, channel@, step),
            is_uuid_text(r@.id()),
    {
        Self::fader_delta(FaderDeltaAction::fade_channel(x32_id, channel, step))
    }

    /// Sets the fader of `channel` to `value` thousandths.
    pub fn set_fader(x32_id: &str, channel: &ChannelPath, value: i64) -> (r: Self)
        ensures
            r@.without_id() == ActionView::set_fader(x32_id@, channel@, value),
            is_uuid_text(r@.id()),
    {
        Self::fad(FadAction::set_fader(x32_id, channel, value))
    }

    /// Recalls the scene `scene` of the mixer `x32_id`.
    pub fn go_to_scene(x32_id: &str, scene: u32) -> (r: Self)
        ensures
            r@.without_id() == ActionView::go_to_scene(x32_id@, scene),
            is_uuid_text(r@.id()),
    {
        Self::go_scene(
            GoSceneAction {
                id: new_id(),
                instance: x32_id.to_string(),
                options: GoSceneOptions { scene },
                delay: 0,
            },
        )
    }
}

} // verus!
