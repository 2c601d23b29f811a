//! Buttons, and the controls that fill the cells of a page.

use crate::action::{Action, ActionView};
use crate::channel::{view_text, ChannelPath};
use crate::error::BuildError;
use crate::feedback::{
    feedbacks_have_uuids, feedbacks_view, feedbacks_without_ids, Feedback, FeedbackMute,
    FeedbackView,
};
use crate::ident::is_uuid_text;
use crate::step::{steps_have_uuids, steps_view, steps_without_ids, Step, StepView};
use crate::style::{Options, Style, StyleView};
use std::collections::HashMap;
use vstd::prelude::*;

verus! {

/// A button: its look, its options, what it shows of the mixer and what it
/// does, step by step. The steps are keyed by their number, from zero.
#[derive(Debug, Clone, PartialEq, Eq)]
pub struct ButtonControl {
    pub style: Style,
    pub options: Options,
    pub feedbacks: Vec<Feedback>,
    pub steps: HashMap<usize, Step>,
}

/// A `ButtonControl` as a value of mathematics.
pub struct ButtonControlView {
    pub style: StyleView,
    pub options: Options,
    pub feedbacks: Seq<FeedbackView>,
    pub steps: Map<usize, StepView>,
}

impl View for ButtonControl {
    type V = ButtonControlView;

    open spec fn view(&self) -> ButtonControlView {
        ButtonControlView {
            style: self.style@,
            options: self.options,
            feedbacks: feedbacks_view(self.feedbacks@),
            steps: steps_view(self.steps@),
        }
    }
}

/// The label of a button that shows a channel: the channel's name, and under
/// it the variable that holds its fader level.
pub open spec fn channel_label(name: Seq<char>, token: Seq<char>) -> Seq<char> {
    name.push('\n') + view_text(token)
}

impl ButtonControlView {
    /// A button with the label `text` that shows nothing and does nothing.
    pub open spec fn plain(text: Seq<char>) -> ButtonControlView {
        ButtonControlView {
            style: StyleView::plain(text),
            options: Options::plain(),
            feedbacks: Seq::empty(),
            steps: Map::empty(),
        }
    }

    /// A button with the label `text` that shows page `page`.
    pub open spec fn page_select(text: Seq<char>, page: u32) -> ButtonControlView {
        ButtonControlView {
            steps: Map::<usize, StepView>::empty().insert(0, StepView::page_select(page)),
            ..Self::plain(text)
        }
    }

    /// A button that shows the name and the fader level of the channel
    /// `token`.
    pub open spec fn channel_view(name: Seq<char>, token: Seq<char>) -> ButtonControlView {
        Self::plain(channel_label(name, token))
    }

    /// A knob with the label `text` that moves the fader of the channel
    /// `token` by `step` thousandths a turn.
    pub open spec fn channel_rotary(
        text: Seq<char>,
        x32_id: Seq<char>,
        token: Seq<char>,
        step: i32,
    ) -> ButtonControlView {
        ButtonControlView {
            style: StyleView::plain(text),
            options: Options::rotary(),
            feedbacks: Seq::empty(),
            steps: Map::<usize, StepView>::empty().insert(
                0,
                StepView::fade_channel(x32_id, token, step),
            ),
        }
    }

    /// The first step of the button, or the step that does nothing where the
    /// button has none yet.
    pub open spec fn first_step(self) -> StepView {
        if self.steps.contains_key(0) {
            self.steps[0]
        } else {
            StepView::empty()
        }
    }

    /// This button with `action` as the last thing that its first step does
    /// on a press.
    pub open spec fn with_down_action(self, action: ActionView) -> ButtonControlView {
        ButtonControlView {
            steps: self.steps.insert(0, self.first_step().with_down_action(action)),
            ..self
        }
    }

    /// This button on another background.
    pub open spec fn with_background(self, color: u32) -> ButtonControlView {
        ButtonControlView { style: self.style.with_background(color), ..self }
    }

    /// This button with `feedback` as the last thing that it shows.
    pub open spec fn with_feedback(self, feedback: FeedbackView) -> ButtonControlView {
        ButtonControlView { feedbacks: self.feedbacks.push(feedback), ..self }
    }

    /// The button with every identifier emptied.
    pub open spec fn without_ids(self) -> ButtonControlView {
        ButtonControlView {
            feedbacks: feedbacks_without_ids(self.feedbacks),
            steps: steps_without_ids(self.steps),
            ..self
        }
    }

    /// Whether every action and feedback of the button has the text of a
    /// UUID as its identifier.
    pub open spec fn have_uuids(self) -> bool {
        feedbacks_have_uuids(self.feedbacks) && steps_have_uuids(self.steps)
    }
}

/// A button that shows nothing and does nothing holds no identifier.
pub proof fn lemma_idle_button_without_ids(button: ButtonControlView)
    requires
        button.feedbacks == Seq::<FeedbackView>::empty(),
        button.steps == Map::<usize, StepView>::empty(),
    ensures
        button.without_ids() == button,
        button.have_uuids(),
{
    assert(button.without_ids().feedbacks =~= button.feedbacks);
    assert(button.without_ids().steps =~= button.steps);
}

/// Emptying the identifiers of a button that got one more action is adding
/// the action without its identifier to the button without its identifiers.
pub proof fn lemma_with_down_action_without_ids(button: ButtonControlView, action: ActionView)
    ensures
        button.with_down_action(action).without_ids() == button.without_ids().with_down_action(
            action.without_id(),
        ),
        button.have_uuids() && is_uuid_text(action.id()) ==> button.with_down_action(
            action,
        ).have_uuids(),
{
    let lhs = button.with_down_action(action).without_ids();
    let rhs = button.without_ids().with_down_action(action.without_id());
    assert(lhs.steps[0].action_sets.down =~= rhs.steps[0].action_sets.down);
    assert(lhs.steps[0].action_sets.up =~= rhs.steps[0].action_sets.up);
    assert(lhs.steps =~= rhs.steps);
}

/// Emptying the identifiers of a button that got one more feedback is adding
/// the feedback without its identifier to the button without its
/// identifiers.
pub proof fn lemma_with_feedback_without_ids(button: ButtonControlView, feedback: FeedbackView)
    ensures
        button.with_feedback(feedback).without_ids() == button.without_ids().with_feedback(
            feedback.without_id(),
        ),
        button.have_uuids() && is_uuid_text(feedback.id()) ==> button.with_feedback(
            feedback,
        ).have_uuids(),
{
    let lhs = button.with_feedback(feedback).without_ids();
    let rhs = button.without_ids().with_feedback(feedback.without_id());
    assert(lhs.feedbacks =~= rhs.feedbacks);
}

impl ButtonControl {
    /// A button with the label `text` that shows nothing and does nothing.
    pub fn new(text: &str) -> (r: Self)
        ensures
            r@ == ButtonControlView::plain(text@),
    {
        let r = Self {
            style: Style::new(text),
            options: Options::default(),
            feedbacks: Vec::new(),
            steps: HashMap::new(),
        };
        assert(r@.feedbacks =~= Seq::empty());
        assert(r@.steps =~= Map::empty());
        r
    }

    /// A button with the label `text` that shows page `page` when it is
    /// pressed.
    pub fn new_page_select(text: &str, page: u32) -> (r: Self)
        ensures
            r@.without_ids() == ButtonControlView::page_select(text@, page),
            r@.have_uuids(),
    {
        let mut steps: HashMap<usize, Step> = HashMap::new();
        steps.insert(0, Step::new_page_select(page));
        let r = Self {
            style: Style::new(text),
            options: Options::default(),
            feedbacks: Vec::new(),
            steps,
        };
        assert(r@.without_ids().feedbacks =~= Seq::empty());
        assert(r@.without_ids().steps =~= Map::<usize, StepView>::empty().insert(
            0,
            StepView::page_select(page),
        ));
        r
    }

    /// A button that shows the name `text` of a channel and, under it, the
    /// channel's fader level.
    pub fn new_channel_view(text: &str, channel: &ChannelPath) -> (r: Result<Self, BuildError>)
        ensures
            r is Ok,
            r->Ok_0@ == ButtonControlView::channel_view(text@, channel@),
    {
        let level = match channel.view_string() {
            Ok(level) => level,
            Err(e) => {
                return Err(e);
            },
        };
        let mut label = text.to_string();
        label.push('\n');
        label.append(level.as_str());
        Ok(Self::new(label.as_str()))
    }

    /// A knob with the label `text` that moves the fader of `channel`: down
    /// by `step` thousandths on a turn to the left, up by as much on a turn
    /// to the right.
    pub fn new_channel_rotary(text: &str, x32_id: &str, channel: &ChannelPath, step: i32) -> (r:
        Self)
        ensures
            r@.without_ids() == ButtonControlView::channel_rotary(
                text@,
                x32_id@,
                channel@,
                step,
            ),
            r@.have_uuids(),
    {
        let mut steps: HashMap<usize, Step> = HashMap::new();
        steps.insert(0, Step::fade_channel(x32_id, channel, step));
        let r = Self {
            style: Style::new(text),
            options: Options {
                relative_delay: false,
                step_auto_progress: true,
                rotary_actions: Some(true),
            },
            feedbacks: Vec::new(),
            steps,
        };
        assert(r@.without_ids().feedbacks =~= Seq::empty());
        assert(r@.without_ids().steps =~= Map::<usize, StepView>::empty().insert(
            0,
            StepView::fade_channel(x32_id@, channel@, step),
        ));
        r
    }

    /// Adds `action` to what the first step does on a press, after what it
    /// does already. A button without steps gets its first step.
    pub fn add_down_action(self, action: Action) -> (r: Self)
        ensures
            r@ == self@.with_down_action(action@),
    {
        let mut button = self;
        let mut step = match button.steps.remove(&0) {
            Some(step) => step,
            None => Step::default(),
        };
        step.action_sets.down.push(action);
        button.steps.insert(0, step);
        assert(button@.steps[0].action_sets.down =~= self@.first_step().action_sets.down.push(
            action@,
        ));
        assert(button@.steps =~= self@.with_down_action(action@).steps);
        button
    }

    /// Puts the button on the background `color`.
    pub fn background_color(self, color: u32) -> (r: Self)
        ensures
            r@ == self@.with_background(color),
    {
        let mut button = self;
        button.style.bgcolor = color;
        button
    }

    /// Adds the mute feedback of `channel`, black on red, under a new
    /// identifier, after what the button shows already.
    pub fn add_mute_feedback(self, x32_id: &str, channel: &ChannelPath<'_>) -> (r: Self)
        ensures
            r@.feedbacks.len() == self@.feedbacks.len() + 1,
            r@ == self@.with_feedback(r@.feedbacks.last()),
            r@.feedbacks.last().without_id() == FeedbackView::mute_of(x32_id@, channel@),
            is_uuid_text(r@.feedbacks.last().id()),
    {
        let feedback = Feedback::mute(FeedbackMute::new(x32_id, channel));
        self.add_feedback(feedback)
    }

    /// Adds `feedback` to what the button shows, after what it shows
    /// already.
    pub fn add_feedback(self, feedback: Feedback) -> (r: Self)
        ensures
            r@ == self@.with_feedback(feedback@),
    {
        let mut button = self;
        button.feedbacks.push(feedback);
        assert(button@.feedbacks =~= self@.feedbacks.push(feedback@));
        button
    }
}

/// What stands in a cell of a page: a button, or one of the two keys that
/// turn the pages.
#[derive(Debug, Clone, PartialEq, Eq)]
#[allow(non_camel_case_types)]
pub enum Control {
    button(ButtonControl),
    pageup,
    pagedown,
}

/// A `Control` as a value of mathematics.
#[allow(non_camel_case_types)]
pub enum ControlView {
    button(ButtonControlView),
    pageup,
    pagedown,
}

impl View for Control {
    type V = ControlView;

    open spec fn view(&self) -> ControlView {
        match self {
            Control::button(b) => ControlView::button(b@),
            Control::pageup => ControlView::pageup,
            Control::pagedown => ControlView::pagedown,
        }
    }
}

impl ControlView {
    /// The control with every identifier emptied.
    pub open spec fn without_ids(self) -> ControlView {
        match self {
            ControlView::button(b) => ControlView::button(b.without_ids()),
            ControlView::pageup => ControlView::pageup,
            ControlView::pagedown => ControlView::pagedown,
        }
    }

    /// Whether every action and feedback of the control has the text of a
    /// UUID as its identifier.
    pub open spec fn have_uuids(self) -> bool {
        match self {
            ControlView::button(b) => b.have_uuids(),
            ControlView::pageup => true,
            ControlView::pagedown => true,
        }
    }
}

} // verus!
