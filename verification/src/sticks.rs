//! Keeping track of where the two sticks of a gamepad stand.

use crate::input::{AnalogValue, Axis};
use crate::records::ControllerStickEvent;
use vstd::prelude::*;

verus! {

/// Where one stick stands.
#[derive(Clone, Copy, Debug, PartialEq, Eq, Structural)]
pub struct ControllerStickState {
    /// Across.
    pub x: AnalogValue,
    /// Up and down.
    pub y: AnalogValue,
}

impl ControllerStickState {
    /// A stick at rest.
    pub open spec fn spec_rest() -> ControllerStickState {
        ControllerStickState { x: AnalogValue::spec_zero(), y: AnalogValue::spec_zero() }
    }

    #[verifier::when_used_as_spec(spec_rest)]
    pub fn rest() -> (s: ControllerStickState)
        ensures
            s == Self::spec_rest(),
    {
        ControllerStickState { x: AnalogValue::zero(), y: AnalogValue::zero() }
    }
}

impl Default for ControllerStickState {
    fn default() -> (s: ControllerStickState)
        ensures
            s == ControllerStickState::spec_rest(),
    {
        ControllerStickState::rest()
    }
}

/// Where both sticks stand: the four coordinates that are tracked.
#[derive(Clone, Copy, Debug, PartialEq, Eq, Structural)]
pub struct SticksView {
    pub left: ControllerStickState,
    pub right: ControllerStickState,
}

/// Both sticks after `axis` moved to `value`: that one coordinate changes and
/// the other three stay. An axis that belongs to no stick changes nothing.
pub open spec fn spec_move(sticks: SticksView, axis: Axis, value: AnalogValue) -> SticksView {
    match axis {
        Axis::LeftStickX => SticksView {
            left: ControllerStickState { x: value, y: sticks.left.y },
            right: sticks.right,
        },
        Axis::LeftStickY => SticksView {
            left: ControllerStickState { x: sticks.left.x, y: value },
            right: sticks.right,
        },
        Axis::RightStickX => SticksView {
            left: sticks.left,
            right: ControllerStickState { x: value, y: sticks.right.y },
        },
        Axis::RightStickY => SticksView {
            left: sticks.left,
            right: ControllerStickState { x: sticks.right.x, y: value },
        },
        _ => sticks,
    }
}

/// The record of where `sticks` stand at `time`, nanoseconds since the session
/// began.
pub open spec fn spec_snapshot(sticks: SticksView, time: u64) -> ControllerStickEvent {
    ControllerStickEvent {
        time,
        left_x: sticks.left.x,
        left_y: sticks.left.y,
        right_x: sticks.right.x,
        right_y: sticks.right.y,
    }
}

/// The record that a move of `axis` to `value` at the instant `time` gives in
/// a session that began at `start`, where the sticks stood at `sticks` before:
/// none for an axis of no stick, none for an instant from before the session.
pub open spec fn spec_stick_record(
    start: u64,
    sticks: SticksView,
    axis: Axis,
    value: AnalogValue,
    time: u64,
) -> Option<ControllerStickEvent> {
    if !axis.spec_is_stick() || time < start {
        None
    } else {
        Some(spec_snapshot(spec_move(sticks, axis, value), (time - start) as u64))
    }
}

/// A move of a stick's axis sets the coordinate that the axis names and
/// leaves the other three as they were, in what is kept and in the record
/// alike. A move of any other axis changes none of the four.
pub proof fn lemma_one_coordinate_moves(
    start: u64,
    sticks: SticksView,
    axis: Axis,
    value: AnalogValue,
    time: u64,
)
    ensures
        ({
            let after = spec_move(sticks, axis, value);
            &&& after.left.x == (if axis == Axis::LeftStickX {
                value
            } else {
                sticks.left.x
            })
            &&& after.left.y == (if axis == Axis::LeftStickY {
                value
            } else {
                sticks.left.y
            })
            &&& after.right.x == (if axis == Axis::RightStickX {
                value
            } else {
                sticks.right.x
            })
            &&& after.right.y == (if axis == Axis::RightStickY {
                value
            } else {
                sticks.right.y
            })
            &&& !axis.spec_is_stick() ==> after == sticks
        }),
        spec_stick_record(start, sticks, axis, value, time).is_some() <==> axis.spec_is_stick()
            && start <= time,
        match spec_stick_record(start, sticks, axis, value, time) {
            Some(r) => {
                let after = spec_move(sticks, axis, value);
                &&& r.time == time - start
                &&& r.left_x == after.left.x
                &&& r.left_y == after.left.y
                &&& r.right_x == after.right.x
                &&& r.right_y == after.right.y
            },
            None => true,
        },
{
}


/// The sticks of one gamepad as they were last reported, and the instant at
/// which the session began.
pub struct StickTracker {
    start: u64,
    left: ControllerStickState,
    right: ControllerStickState,
}

impl StickTracker {
    /// The instant at which the session began.
    pub closed spec fn spec_start(&self) -> u64 {
        self.start
    }

    /// Where both sticks stand.
    pub closed spec fn view(&self) -> SticksView {
        SticksView { left: self.left, right: self.right }
    }

    /// Both sticks at rest.
    pub open spec fn spec_at_rest() -> SticksView {
        SticksView {
            left: ControllerStickState::spec_rest(),
            right: ControllerStickState::spec_rest(),
        }
    }

    /// A tracker for a session that begins at `start`, with both sticks at
    /// rest.
    pub fn new(start: u64) -> (t: StickTracker)
        ensures
            t.spec_start() == start,
            t@ == Self::spec_at_rest(),
    {
        StickTracker {
            start,
            left: ControllerStickState::rest(),
            right: ControllerStickState::rest(),
        }
    }

    #[verifier::when_used_as_spec(spec_start)]
    pub fn start(&self) -> (s: u64)
        ensures
            s == self.spec_start(),
    {
        self.start
    }

    /// Where the left stick stands.
    pub fn left(&self) -> (s: ControllerStickState)
        ensures
            s == self@.left,
    {
        self.left
    }

    /// Where the right stick stands.
    pub fn right(&self) -> (s: ControllerStickState)
        ensures
            s == self@.right,
    {
        self.right
    }

    /// Takes in one move of `axis` to `value` at `time`. The coordinate that
    /// the axis names is set, and the record shows all four as they then
    /// stand. An axis that belongs to no stick is passed over: nothing
    /// changes and there is no record. A move from before the session is
    /// kept, and gives no record.
    pub fn observe(&mut self, axis: Axis, value: AnalogValue, time: u64) -> (record: Option<
        ControllerStickEvent,
    >)
        ensures
            final(self).spec_start() == old(self).spec_start(),
            final(self)@ == spec_move(old(self)@, axis, value),
            record == spec_stick_record(old(self).spec_start(), old(self)@, axis, value, time),
    {
        match axis {
            Axis::LeftStickX => {
                self.left.x = value;
            },
            Axis::LeftStickY => {
                self.left.y = value;
            },
            Axis::RightStickX => {
                self.right.x = value;
            },
            Axis::RightStickY => {
                self.right.y = value;
            },
            _ => {
                return None;
            },
        }
        if time < self.start {
            return None;
        }
        Some(
            ControllerStickEvent {
                time: time - self.start,
                left_x: self.left.x,
                left_y: self.left.y,
                right_x: self.right.x,
                right_y: self.right.y,
            },
        )
    }

    /// Puts both sticks at rest and begins anew at `start`.
    pub fn reset(&mut self, start: u64)
        ensures
            final(self).spec_start() == start,
            final(self)@ == Self::spec_at_rest(),
    {
        self.start = start;
        self.left = ControllerStickState::rest();
        self.right = ControllerStickState::rest();
    }
}

} // verus!
