//! A window that shows an error.

use crate::stateful_text::{StatefulText, TextState};
use vstd::prelude::*;

verus! {

/// What the window says before the error in words.
pub open spec fn spec_heading() -> Seq<char> {
    "An error occurred: "@
}

/// A window that shows the error `error`.
pub struct ErrorWindow<E> {
    error: E,
}

impl<E> ErrorWindow<E> {
    /// The error that the window shows.
    pub closed spec fn spec_error(&self) -> E {
        self.error
    }

    pub fn new(error: E) -> (window: Self)
        ensures
            window.spec_error() == error,
    {
        Self { error }
    }

    /// The error that the window shows.
    pub fn error(&self) -> (error: &E)
        ensures
            *error == self.spec_error(),
    {
        &self.error
    }

    /// The line that the window shows for an error that reads `message`.
    pub fn text(&self, message: &str) -> (line: StatefulText)
        ensures
            line.text@ == spec_heading() + message@,
            line.state == TextState::Error,
    {
        let mut text = String::from_str("An error occurred: ");
        text.append(message);
        StatefulText::new(text, TextState::Error)
    }
}

} // verus!
