//! What a recording session writes down.

use crate::input::{AnalogValue, Button};
use vstd::prelude::*;

verus! {

/// One completed press of a button. Both times are nanoseconds since the
/// session began.
#[derive(Clone, Copy, Debug, PartialEq, Eq, Structural)]
pub struct ControllerButtonEvent {
    /// When the button went down.
    pub press_time: u64,
    /// When the button came up again.
    pub release_time: u64,
    /// The button that was pressed.
    pub button: Button,
}

impl ControllerButtonEvent {
    /// A record is in order when the button did not come up before it went
    /// down.
    pub open spec fn spec_is_ordered(self) -> bool {
        self.press_time <= self.release_time
    }

    #[verifier::when_used_as_spec(spec_is_ordered)]
    pub fn is_ordered(self) -> (o: bool)
        ensures
            o == self.spec_is_ordered(),
    {
        self.press_time <= self.release_time
    }

    /// How long the button was held, in nanoseconds; nothing for a record
    /// that is not in order.
    pub open spec fn spec_held_for(self) -> u64 {
        if self.press_time <= self.release_time {
            (self.release_time - self.press_time) as u64
        } else {
            0u64
        }
    }

    #[verifier::when_used_as_spec(spec_held_for)]
    pub fn held_for(self) -> (d: u64)
        ensures
            d == self.spec_held_for(),
    {
        if self.press_time <= self.release_time {
            self.release_time - self.press_time
        } else {
            0u64
        }
    }
}

/// Where both sticks stand at one moment. `time` is nanoseconds since the
/// session began.
#[derive(Clone, Copy, Debug, PartialEq, Eq, Structural)]
pub struct ControllerStickEvent {
    /// When the sticks stood so.
    pub time: u64,
    /// The left stick, across.
    pub left_x: AnalogValue,
    /// The left stick, up and down.
    pub left_y: AnalogValue,
    /// The right stick, across.
    pub right_x: AnalogValue,
    /// The right stick, up and down.
    pub right_y: AnalogValue,
}

/// A record of either kind, as a session hands it to its two files.
#[derive(Clone, Copy, Debug, PartialEq, Eq, Structural)]
pub enum SessionRecord {
    Button(ControllerButtonEvent),
    Stick(ControllerStickEvent),
}

} // verus!
