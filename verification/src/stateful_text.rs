//! A line of text that says how it is meant.

use vstd::prelude::*;

verus! {

/// How a line of text is meant.
#[derive(Clone, Copy, Debug, PartialEq, Eq, Structural)]
pub enum TextState {
    Success,
    Error,
    Warning,
    Default,
}

impl Default for TextState {
    fn default() -> (state: TextState)
        ensures
            state == TextState::Default,
    {
        TextState::Default
    }
}

/// A colour of the user interface.
#[derive(Clone, Copy, Debug, PartialEq, Eq, Structural)]
pub enum TextColor {
    Green,
    Red,
    Yellow,
    Gray,
    White,
}

impl TextState {
    /// The colour in which text that is meant so is shown: green for
    /// success, red for an error, yellow for a warning, gray else.
    pub open spec fn spec_color(self) -> TextColor {
        match self {
            TextState::Success => TextColor::Green,
            TextState::Error => TextColor::Red,
            TextState::Warning => TextColor::Yellow,
            TextState::Default => TextColor::Gray,
        }
    }

    #[verifier::when_used_as_spec(spec_color)]
    pub fn color(self) -> (c: TextColor)
        ensures
            c == self.spec_color(),
    {
        match self {
            TextState::Success => TextColor::Green,
            TextState::Error => TextColor::Red,
            TextState::Warning => TextColor::Yellow,
            TextState::Default => TextColor::Gray,
        }
    }
}

/// Text that has a state associated with it.
#[derive(Debug, PartialEq, Eq)]
pub struct StatefulText {
    /// The text to display.
    pub text: String,
    /// The state of the text.
    pub state: TextState,
}

impl StatefulText {
    /// The text `text`, meant as `state` says.
    pub fn new(text: String, state: TextState) -> (t: StatefulText)
        ensures
            t.text == text,
            t.state == state,
    {
        Self { text, state }
    }

    /// The colour in which the text is shown.
    pub fn color(&self) -> (c: TextColor)
        ensures
            c == self.state.spec_color(),
    {
        self.state.color()
    }
}

impl Default for StatefulText {
    fn default() -> (t: StatefulText)
        ensures
            t.text@ == Seq::<char>::empty(),
            t.state == TextState::Default,
    {
        StatefulText { text: String::new(), state: TextState::Default }
    }
}

} // verus!
