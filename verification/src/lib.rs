//! A generator of control-surface configurations for an audio mixer.
//!
//! The input is a list of named groups of mixer channels. The output is a
//! configuration of 99 pages of buttons: every page has a navigation bar
//! with one button for each group and a reset button, and the page of a
//! group shows the group's channels, each with a button that shows its name
//! and level and a knob that moves its fader.
//!
//! Every type has a view, a value of mathematics that the contracts speak
//! of. Fader levels and steps are whole numbers of thousandths.

pub mod action;
pub mod button;
pub mod channel;
pub mod config;
pub mod error;
pub mod feedback;
pub mod guarantees;
pub mod ident;
pub mod input;
pub mod instance;
pub mod layout;
pub mod page;
pub mod step;
pub mod style;
pub mod text;

pub use crate::action::{
    Action, FadAction, FadDeltaOptions, FadOptions, FaderDeltaAction, GoSceneAction,
    GoSceneOptions, MuteAction, MuteOptions, PageOptions, SetPageByIndexAction,
};
pub use crate::button::{ButtonControl, Control};
pub use crate::channel::ChannelPath;
pub use crate::config::Config;
pub use crate::error::BuildError;
pub use crate::feedback::{Feedback, FeedbackMute, FeedbackMuteOptions};
pub use crate::input::{Group, MyConfig};
pub use crate::instance::{Instance, InstanceConfig};
pub use crate::layout::{build_config, build_page, generate};
pub use crate::page::Page;
pub use crate::step::{ActionSet, Step, StepOptions};
pub use crate::style::{ColorStyle, Gridsize, Options, Style};
