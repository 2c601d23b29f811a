//! What a button shows of the mixer's state.
//!
//! A feedback carries an identifier drawn at random, as an action does; its
//! model has the empty identifier.

use crate::channel::{target_text, ChannelPath};
use crate::ident::{is_uuid_text, new_id};
use crate::style::ColorStyle;
use vstd::prelude::*;

verus! {

/// Red, the background that the mute feedback puts on a button.
pub const MUTED_BACKGROUND: u32 = 0xff0000;

/// The channel whose mute state is shown, and the state that counts.
#[derive(Debug, Clone, PartialEq, Eq)]
pub struct FeedbackMuteOptions {
    pub target: String,
    pub state: bool,
}

/// A `FeedbackMuteOptions` as a value of mathematics.
pub struct FeedbackMuteOptionsView {
    pub target: Seq<char>,
    pub state: bool,
}

impl View for FeedbackMuteOptions {
    type V = FeedbackMuteOptionsView;

    open spec fn view(&self) -> FeedbackMuteOptionsView {
        FeedbackMuteOptionsView { target: self.target@, state: self.state }
    }
}

/// Colours a button by the mute state of a channel.
#[derive(Debug, Clone, PartialEq, Eq)]
pub struct FeedbackMute {
    pub id: String,
    pub instance_id: String,
    pub options: FeedbackMuteOptions,
    pub style: ColorStyle,
}

/// A `FeedbackMute` as a value of mathematics.
pub struct FeedbackMuteView {
    pub id: Seq<char>,
    pub instance_id: Seq<char>,
    pub options: FeedbackMuteOptionsView,
    pub style: ColorStyle,
}

impl View for FeedbackMute {
    type V = FeedbackMuteView;

    open spec fn view(&self) -> FeedbackMuteView {
        FeedbackMuteView {
            id: self.id@,
            instance_id: self.instance_id@,
            options: self.options@,
            style: self.style,
        }
    }
}

impl FeedbackMuteView {
    /// The mute feedback of the channel `token` of the mixer `x32_id`: for
    /// the state `true`, black on red.
    pub open spec fn for_channel(x32_id: Seq<char>, token: Seq<char>) -> FeedbackMuteView {
        FeedbackMuteView {
            id: Seq::empty(),
            instance_id: x32_id,
            options: FeedbackMuteOptionsView { target: target_text(token), state: true },
            style: ColorStyle { color: 0, bgcolor: MUTED_BACKGROUND },
        }
    }

    /// The same with the empty identifier in the place of its own.
    pub open spec fn without_id(self) -> FeedbackMuteView {
        FeedbackMuteView { id: Seq::empty(), ..self }
    }
}

impl FeedbackMute {
    /// The mute feedback of `channel`, under a new identifier.
    pub fn new(x32_id: &str, channel: &ChannelPath) -> (r: Self)
        ensures
            r@.without_id() == FeedbackMuteView::for_channel(x32_id@, channel@),
            is_uuid_text(r@.id),
    {
        Self {
            id: new_id(),
            instance_id: x32_id.to_string(),
            options: FeedbackMuteOptions { target: channel.set_string(), state: true },
            style: ColorStyle { color: 0, bgcolor: MUTED_BACKGROUND },
        }
    }
}

/// One thing that a button shows.
#[derive(Debug, Clone, PartialEq, Eq)]
#[allow(non_camel_case_types)]
pub enum Feedback {
    mute(FeedbackMute),
}

/// A `Feedback` as a value of mathematics.
#[allow(non_camel_case_types)]
pub enum FeedbackView {
    mute(FeedbackMuteView),
}

impl View for Feedback {
    type V = FeedbackView;

    open spec fn view(&self) -> FeedbackView {
        match self {
            Feedback::mute(f) => FeedbackView::mute(f@),
        }
    }
}

impl FeedbackView {
    /// The identifier of the feedback.
    pub open spec fn id(self) -> Seq<char> {
        match self {
            FeedbackView::mute(f) => f.id,
        }
    }

    /// The feedback with the empty identifier in the place of its own.
    pub open spec fn without_id(self) -> FeedbackView {
        match self {
            FeedbackView::mute(f) => FeedbackView::mute(f.without_id()),
        }
    }

    /// The model of the mute feedback of a channel.
    pub open spec fn mute_of(x32_id: Seq<char>, token: Seq<char>) -> FeedbackView {
        FeedbackView::mute(FeedbackMuteView::for_channel(x32_id, token))
    }
}

/// The views of a list of feedbacks, in the same order.
pub open spec fn feedbacks_view(feedbacks: Seq<Feedback>) -> Seq<FeedbackView> {
    feedbacks.map_values(|f: Feedback| f@)
}

/// A list of feedbacks with every identifier emptied.
pub open spec fn feedbacks_without_ids(feedbacks: Seq<FeedbackView>) -> Seq<FeedbackView> {
    feedbacks.map_values(|f: FeedbackView| f.without_id())
}

/// Whether every feedback of the list has the text of a UUID as its
/// identifier.
pub open spec fn feedbacks_have_uuids(feedbacks: Seq<FeedbackView>) -> bool {
    forall|i: int| 0 <= i < feedbacks.len() ==> is_uuid_text((#[trigger] feedbacks[i]).id())
}

} // verus!
