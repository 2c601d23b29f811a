//! The steps of a button: the actions it fires when it is pressed, released
//! or turned.

use crate::action::{
    actions_have_uuids, actions_view, actions_without_ids, Action, ActionView,
    SetPageByIndexAction,
};
use crate::channel::ChannelPath;
use vstd::prelude::*;

verus! {

/// What goes on while a button is held.
#[derive(Debug, Clone, PartialEq, Eq)]
pub struct StepOptions {
    pub run_while_held: Vec<()>,
}

/// A `StepOptions` as a value of mathematics.
pub struct StepOptionsView {
    pub run_while_held: Seq<()>,
}

impl View for StepOptions {
    type V = StepOptionsView;

    open spec fn view(&self) -> StepOptionsView {
        StepOptionsView { run_while_held: self.run_while_held@ }
    }
}

impl StepOptionsView {
    /// Nothing goes on while the button is held.
    pub open spec fn empty() -> StepOptionsView {
        StepOptionsView { run_while_held: Seq::empty() }
    }
}

impl Default for StepOptions {
    fn default() -> (r: Self)
        ensures
            r@ == StepOptionsView::empty(),
    {
        Self { run_while_held: Vec::new() }
    }
}

/// The actions of one step, by what is done to the button. A button that is
/// not turned has no lists for turning.
#[derive(Debug, Clone, PartialEq, Eq)]
pub struct ActionSet {
    pub down: Vec<Action>,
    pub up: Vec<Action>,
    pub rotate_left: Option<Vec<Action>>,
    pub rotate_right: Option<Vec<Action>>,
}

/// An `ActionSet` as a value of mathematics.
pub struct ActionSetView {
    pub down: Seq<ActionView>,
    pub up: Seq<ActionView>,
    pub rotate_left: Option<Seq<ActionView>>,
    pub rotate_right: Option<Seq<ActionView>>,
}

/// The views of a list of actions that may be absent.
pub open spec fn optional_actions_view(actions: Option<Vec<Action>>) -> Option<Seq<ActionView>> {
    match actions {
        Some(list) => Some(actions_view(list@)),
        None => None,
    }
}

/// A list of actions that may be absent, with every identifier emptied.
pub open spec fn optional_actions_without_ids(actions: Option<Seq<ActionView>>) -> Option<
    Seq<ActionView>,
> {
    match actions {
        Some(list) => Some(actions_without_ids(list)),
        None => None,
    }
}

/// Whether every action of a list that may be absent has the text of a UUID
/// as its identifier.
pub open spec fn optional_actions_have_uuids(actions: Option<Seq<ActionView>>) -> bool {
    match actions {
        Some(list) => actions_have_uuids(list),
        None => true,
    }
}

impl View for ActionSet {
    type V = ActionSetView;

    open spec fn view(&self) -> ActionSetView {
        ActionSetView {
            down: actions_view(self.down@),
            up: actions_view(self.up@),
            rotate_left: optional_actions_view(self.rotate_left),
            rotate_right: optional_actions_view(self.rotate_right),
        }
    }
}

impl ActionSetView {
    /// No action on press or release, and no lists for turning.
    pub open spec fn empty() -> ActionSetView {
        ActionSetView {
            down: Seq::empty(),
            up: Seq::empty(),
            rotate_left: None,
            rotate_right: None,
        }
    }

    /// The set with every identifier emptied.
    pub open spec fn without_ids(self) -> ActionSetView {
        ActionSetView {
            down: actions_without_ids(self.down),
            up: actions_without_ids(self.up),
            rotate_left: optional_actions_without_ids(self.rotate_left),
            rotate_right: optional_actions_without_ids(self.rotate_right),
        }
    }

    /// Whether every action of the set has the text of a UUID as its
    /// identifier.
    pub open spec fn have_uuids(self) -> bool {
        &&& actions_have_uuids(self.down)
        &&& actions_have_uuids(self.up)
        &&& optional_actions_have_uuids(self.rotate_left)
        &&& optional_actions_have_uuids(self.rotate_right)
    }
}

impl Default for ActionSet {
    fn default() -> (r: Self)
        ensures
            r@ == ActionSetView::empty(),
    {
        let r = Self { down: Vec::new(), up: Vec::new(), rotate_left: None, rotate_right: None };
        assert(r@.down =~= Seq::empty());
        assert(r@.up =~= Seq::empty());
        r
    }
}

/// One step of a button.
#[derive(Debug, Clone, PartialEq, Eq)]
pub struct Step {
    pub action_sets: ActionSet,
    pub options: StepOptions,
}

/// A `Step` as a value of mathematics.
pub struct StepView {
    pub action_sets: ActionSetView,
    pub options: StepOptionsView,
}

impl View for Step {
    type V = StepView;

    open spec fn view(&self) -> StepView {
        StepView { action_sets: self.action_sets@, options: self.options@ }
    }
}

impl StepView {
    /// The step that does nothing.
    pub open spec fn empty() -> StepView {
        StepView { action_sets: ActionSetView::empty(), options: StepOptionsView::empty() }
    }

    /// The step that shows page `page` on a press.
    pub open spec fn page_select(page: u32) -> StepView {
        StepView {
            action_sets: ActionSetView {
                down: seq![ActionView::to_page(page)],
                up: Seq::empty(),
                rotate_left: None,
                rotate_right: None,
            },
            options: StepOptionsView::empty(),
        }
    }

    /// The step that moves the fader of the channel `token` down by `step`
    /// thousandths on a turn to the left, and up by as much on a turn to the
    /// right.
    pub open spec fn fade_channel(x32_id: Seq<char>, token: Seq<char>, step: i32) -> StepView {
        StepView {
            action_sets: ActionSetView {
                down: Seq::empty(),
                up: Seq::empty(),
                rotate_left: Some(seq![ActionView::fade_channel(x32_id, token, (-step) as i64)]),
                rotate_right: Some(seq![ActionView::fade_channel(x32_id, token, step as i64)]),
            },
            options: StepOptionsView::empty(),
        }
    }

    /// This step with `action` as the last thing done on a press.
    pub open spec fn with_down_action(self, action: ActionView) -> StepView {
        StepView {
            action_sets: ActionSetView {
                down: self.action_sets.down.push(action),
                ..self.action_sets
            },
            ..self
        }
    }

    /// The step with every identifier emptied.
    pub open spec fn without_ids(self) -> StepView {
        StepView { action_sets: self.action_sets.without_ids(), ..self }
    }

    /// Whether every action of the step has the text of a UUID as its
    /// identifier.
    pub open spec fn have_uuids(self) -> bool {
        self.action_sets.have_uuids()
    }
}

impl Default for Step {
    fn default() -> (r: Self)
        ensures
            r@ == StepView::empty(),
    {
        Self { action_sets: ActionSet::default(), options: StepOptions::default() }
    }
}

impl Step {
    /// The step of a button that shows page `page`.
    pub fn new_page_select(page: u32) -> (r: Self)
        ensures
            r@.without_ids() == StepView::page_select(page),
            r@.have_uuids(),
    {
        let mut down: Vec<Action> = Vec::new();
        down.push(Action::set_page_byindex(SetPageByIndexAction::new(page)));
        let r = Self {
            action_sets: ActionSet { down, up: Vec::new(), rotate_left: None, rotate_right: None },
            options: StepOptions { run_while_held: Vec::new() },
        };
        assert(r@.without_ids().action_sets.down =~= seq![ActionView::to_page(page)]);
        assert(r@.without_ids().action_sets.up =~= Seq::empty());
        r
    }

    /// The step of a knob that moves the fader of `channel`: down by `step`
    /// thousandths on a turn to the left, up by as much on a turn to the
    /// right.
    pub fn fade_channel(x32_id: &str, channel: &ChannelPath, step: i32) -> (r: Self)
        ensures
            r@.without_ids() == StepView::fade_channel(x32_id@, channel@, step),
            r@.have_uuids(),
    {
        let mut left: Vec<Action> = Vec::new();
        left.push(Action::fade_channel(x32_id, channel, -(step as i64)));
        let mut right: Vec<Action> = Vec::new();
        right.push(Action::fade_channel(x32_id, channel, step as i64));
        let r = Self {
            action_sets: ActionSet {
                down: Vec::new(),
                up: Vec::new(),
                rotate_left: Some(left),
                rotate_right: Some(right),
            },
            options: StepOptions { run_while_held: Vec::new() },
        };
        assert(r@.without_ids().action_sets.down =~= Seq::empty());
        assert(r@.without_ids().action_sets.up =~= Seq::empty());
        assert(r@.without_ids().action_sets.rotate_left->0 =~= seq![
            ActionView::fade_channel(x32_id@, channel@, (-step) as i64),
        ]);
        assert(r@.without_ids().action_sets.rotate_right->0 =~= seq![
            ActionView::fade_channel(x32_id@, channel@, step as i64),
        ]);
        r
    }
}

/// The views of the steps of a button, under the same keys.
pub open spec fn steps_view(steps: Map<usize, Step>) -> Map<usize, StepView> {
    steps.map_values(|s: Step| s@)
}

/// The steps of a button with every identifier emptied.
pub open spec fn steps_without_ids(steps: Map<usize, StepView>) -> Map<usize, StepView> {
    steps.map_values(|s: StepView| s.without_ids())
}

/// Whether every action of every step has the text of a UUID as its
/// identifier.
pub open spec fn steps_have_uuids(steps: Map<usize, StepView>) -> bool {
    forall|k: usize| steps.contains_key(k) ==> (#[trigger] steps[k]).have_uuids()
}

} // verus!
