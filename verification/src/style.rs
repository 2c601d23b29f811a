//! How a button looks, and the small records that go with it.

use vstd::prelude::*;

verus! {

/// White, the colour of a button's text.
pub const WHITE: u32 = 16777215;

/// Black, the background of a button.
pub const BLACK: u32 = 0;

/// The look of a button: its label and how the label is set.
#[derive(Debug, Clone, PartialEq, Eq)]
pub struct Style {
    pub text: String,
    pub size: String,
    pub png: Option<()>,
    pub alignment: String,
    pub pngalignment: String,
    pub color: u32,
    pub bgcolor: u32,
    pub show_topbar: String,
}

/// A `Style` as a mathematical value.
pub struct StyleView {
    pub text: Seq<char>,
    pub size: Seq<char>,
    pub png: Option<()>,
    pub alignment: Seq<char>,
    pub pngalignment: Seq<char>,
    pub color: u32,
    pub bgcolor: u32,
    pub show_topbar: Seq<char>,
}

impl View for Style {
    type V = StyleView;

    open spec fn view(&self) -> StyleView {
        StyleView {
            text: self.text@,
            size: self.size@,
            png: self.png,
            alignment: self.alignment@,
            pngalignment: self.pngalignment@,
            color: self.color,
            bgcolor: self.bgcolor,
            show_topbar: self.show_topbar@,
        }
    }
}

impl StyleView {
    /// The look of every new button: the label in white on black, centred,
    /// sized to fit, without a picture.
    pub open spec fn plain(text: Seq<char>) -> StyleView {
        StyleView {
            text,
            size: "auto"@,
            png: None,
            alignment: "center:center"@,
            pngalignment: "center:center"@,
            color: WHITE,
            bgcolor: BLACK,
            show_topbar: "default"@,
        }
    }

    /// This look on another background.
    pub open spec fn with_background(self, color: u32) -> StyleView {
        StyleView { bgcolor: color, ..self }
    }
}

impl Style {
    /// The look of a new button with the label `text`.
    pub fn new(text: &str) -> (r: Self)
        ensures
            r@ == StyleView::plain(text@),
    {
        Self {
            text: text.to_string(),
            size: "auto".to_string(),
            png: None,
            alignment: "center:center".to_string(),
            pngalignment: "center:center".to_string(),
            color: WHITE,
            bgcolor: BLACK,
            show_topbar: "default".to_string(),
        }
    }
}

/// How a button steps through its actions.
#[derive(Debug, Clone, Copy, PartialEq, Eq)]
pub struct Options {
    pub relative_delay: bool,
    pub step_auto_progress: bool,
    pub rotary_actions: Option<bool>,
}

impl Options {
    /// The options of a button that is only pressed.
    pub open spec fn plain() -> Options {
        Options { relative_delay: false, step_auto_progress: true, rotary_actions: None }
    }

    /// The options of a button that is also turned.
    pub open spec fn rotary() -> Options {
        Options { relative_delay: false, step_auto_progress: true, rotary_actions: Some(true) }
    }
}

impl Default for Options {
    fn default() -> (r: Self)
        ensures
            r == Options::plain(),
    {
        Self { relative_delay: false, step_auto_progress: true, rotary_actions: None }
    }
}

/// A pair of colours that a feedback puts on a button.
#[derive(Debug, Clone, Copy, PartialEq, Eq)]
pub struct ColorStyle {
    pub color: u32,
    pub bgcolor: u32,
}

/// The rows and columns that a page spans.
#[derive(Debug, Clone, Copy, PartialEq, Eq)]
pub struct Gridsize {
    pub min_column: u32,
    pub max_column: u32,
    pub min_row: u32,
    pub max_row: u32,
}

impl Gridsize {
    /// Four rows of four columns, counted from zero.
    pub open spec fn standard() -> Gridsize {
        Gridsize { min_column: 0, max_column: 3, min_row: 0, max_row: 3 }
    }
}

impl Default for Gridsize {
    fn default() -> (r: Self)
        ensures
            r == Gridsize::standard(),
    {
        Self { min_column: 0, max_column: 3, min_row: 0, max_row: 3 }
    }
}

} // verus!
