//! One recording session of one gamepad: from the events of the gamepad to
//! the records of its two files.

use crate::correlator::{spec_press, spec_release_record, ButtonCorrelator};
use crate::input::{AnalogValue, Axis, Button, RawInputEvent};
use crate::records::SessionRecord;
use crate::sticks::{spec_move, spec_stick_record, StickTracker, SticksView};
use vstd::prelude::*;

verus! {

/// What a session remembers between two events.
pub struct SessionView {
    /// The instant at which the session began.
    pub start: u64,
    /// The buttons that are down, each with the instant of its press.
    pub pending: Map<Button, u64>,
    /// Where both sticks stand.
    pub sticks: SticksView,
}

/// A session that has just begun at `start`: no button down, both sticks at
/// rest.
pub open spec fn spec_fresh(start: u64) -> SessionView {
    SessionView {
        start,
        pending: Map::<Button, u64>::empty(),
        sticks: StickTracker::spec_at_rest(),
    }
}

/// What the session remembers after `event`.
pub open spec fn spec_after(s: SessionView, event: RawInputEvent) -> SessionView {
    match event {
        RawInputEvent::AxisChanged { axis, value, .. } => SessionView {
            start: s.start,
            pending: s.pending,
            sticks: spec_move(s.sticks, axis, value),
        },
        RawInputEvent::ButtonChanged { button, value, time, .. } => SessionView {
            start: s.start,
            pending: if value.spec_is_zero() {
                s.pending.remove(button)
            } else {
                spec_press(s.pending, button, time)
            },
            sticks: s.sticks,
        },
        _ => s,
    }
}

/// The record that `event` gives, if it gives one.
pub open spec fn spec_record_of(s: SessionView, event: RawInputEvent) -> Option<SessionRecord> {
    match event {
        RawInputEvent::AxisChanged { axis, value, time, .. } => match spec_stick_record(
            s.start,
            s.sticks,
            axis,
            value,
            time,
        ) {
            Some(r) => Some(SessionRecord::Stick(r)),
            None => None,
        },
        RawInputEvent::ButtonChanged { button, value, time, .. } => if value.spec_is_zero() {
            match spec_release_record(s.start, s.pending, button, time) {
                Some(r) => Some(SessionRecord::Button(r)),
                None => None,
            }
        } else {
            None
        },
        _ => None,
    }
}

/// A session that has just begun knows nothing of what went before it: the
/// first release of any button gives a record that begins and ends at that
/// release, and the first move of a stick's axis shows the other three
/// coordinates at rest.
pub proof fn lemma_fresh_session_keeps_nothing(start: u64, event: RawInputEvent)
    ensures
        forall|b: Button| !spec_fresh(start).pending.contains_key(b),
        spec_fresh(start).sticks == StickTracker::spec_at_rest(),
        match (event, spec_record_of(spec_fresh(start), event)) {
            (
                RawInputEvent::ButtonChanged { button, time, .. },
                Some(SessionRecord::Button(r)),
            ) => r.press_time == r.release_time && r.release_time == time - start && r.button
                == button,
            (
                RawInputEvent::AxisChanged { axis, value, time, .. },
                Some(SessionRecord::Stick(r)),
            ) => {
                &&& r.time == time - start
                &&& r.left_x == (if axis == Axis::LeftStickX {
                    value
                } else {
                    AnalogValue::spec_zero()
                })
                &&& r.left_y == (if axis == Axis::LeftStickY {
                    value
                } else {
                    AnalogValue::spec_zero()
                })
                &&& r.right_x == (if axis == Axis::RightStickX {
                    value
                } else {
                    AnalogValue::spec_zero()
                })
                &&& r.right_y == (if axis == Axis::RightStickY {
                    value
                } else {
                    AnalogValue::spec_zero()
                })
            },
            (_, Some(_)) => false,
            (_, None) => true,
        },
{
}


/// The state of one gamepad's recording session.
pub struct RecordingSession {
    buttons: ButtonCorrelator,
    sticks: StickTracker,
}

impl RecordingSession {
    /// Both parts are sound and agree on when the session began.
    pub closed spec fn wf(&self) -> bool {
        self.buttons.wf() && self.buttons.spec_start() == self.sticks.spec_start()
    }

    /// What the session remembers.
    pub closed spec fn view(&self) -> SessionView {
        SessionView {
            start: self.buttons.spec_start(),
            pending: self.buttons@,
            sticks: self.sticks@,
        }
    }

    /// A session that begins at `start`.
    pub fn new(start: u64) -> (s: RecordingSession)
        ensures
            s.wf(),
            s@ == spec_fresh(start),
    {
        RecordingSession { buttons: ButtonCorrelator::new(start), sticks: StickTracker::new(start) }
    }

    /// The instant at which the session began.
    pub fn start(&self) -> (t: u64)
        ensures
            t == self@.start,
    {
        self.buttons.start()
    }

    /// The instant at which `button` went down, if it is down.
    pub fn pending_press(&self, button: Button) -> (p: Option<u64>)
        ensures
            p == (if self@.pending.contains_key(button) {
                Some(self@.pending[button])
            } else {
                None
            }),
    {
        self.buttons.pending_press(button)
    }

    /// Takes in one event of the gamepad and gives the record to write, if
    /// the event completes one. A move of an axis goes to the sticks, a
    /// change of a button to the correlator; any other event changes nothing
    /// and gives nothing.
    pub fn handle_event(&mut self, event: RawInputEvent) -> (record: Option<SessionRecord>)
        requires
            old(self).wf(),
        ensures
            final(self).wf(),
            final(self)@ == spec_after(old(self)@, event),
            record == spec_record_of(old(self)@, event),
    {
        match event {
            RawInputEvent::AxisChanged { axis, value, time, .. } => {
                match self.sticks.observe(axis, value, time) {
                    Some(r) => Some(SessionRecord::Stick(r)),
                    None => None,
                }
            },
            RawInputEvent::ButtonChanged { button, value, time, .. } => {
                match self.buttons.observe(button, value, time) {
                    Some(r) => Some(SessionRecord::Button(r)),
                    None => None,
                }
            },
            _ => None,
        }
    }

    /// Begins the session anew at `start`: nothing of what went before is
    /// kept.
    pub fn restart(&mut self, start: u64)
        ensures
            final(self).wf(),
            final(self)@ == spec_fresh(start),
    {
        self.buttons.reset(start);
        self.sticks.reset(start);
    }
}

} // verus!
