//! Pairing each release of a button with the press that went before it.

use crate::input::{AnalogValue, Button, BUTTON_COUNT};
use crate::records::ControllerButtonEvent;
use std::collections::HashMap;
use vstd::prelude::*;

verus! {

broadcast use vstd::std_specs::hash::group_hash_axioms;

/// The presses still waiting for their release after one more report that
/// `button` is down at `time`: the first such report stays, a later one
/// changes nothing.
pub open spec fn spec_press(pending: Map<Button, u64>, button: Button, time: u64) -> Map<
    Button,
    u64,
> {
    if pending.contains_key(button) {
        pending
    } else {
        pending.insert(button, time)
    }
}

/// The instant that counts as the press when `button` comes up at `time`: the
/// one that is waiting, or else the release itself.
pub open spec fn spec_press_instant(pending: Map<Button, u64>, button: Button, time: u64) -> u64 {
    if pending.contains_key(button) {
        pending[button]
    } else {
        time
    }
}

/// The record for a release of `button` at `time` in a session that began at
/// `start`. An instant from before the session gives no record.
pub open spec fn spec_release_record(
    start: u64,
    pending: Map<Button, u64>,
    button: Button,
    time: u64,
) -> Option<ControllerButtonEvent> {
    let press = spec_press_instant(pending, button, time);
    if press < start || time < start {
        None
    } else {
        Some(
            ControllerButtonEvent {
                press_time: (press - start) as u64,
                release_time: (time - start) as u64,
                button,
            },
        )
    }
}

/// The presses still waiting after a whole run of reports that `button` is
/// down, at the instants `times` in turn.
pub open spec fn spec_press_all(pending: Map<Button, u64>, button: Button, times: Seq<u64>) -> Map<
    Button,
    u64,
>
    decreases times.len(),
{
    if times.len() == 0 {
        pending
    } else {
        spec_press(spec_press_all(pending, button, times.drop_last()), button, times.last())
    }
}

/// Of a run of reports that one button is down, with no release between
/// them, only the first counts: it sets the instant of the press, and every
/// later one changes nothing. Where a press was waiting before the run, the
/// whole run changes nothing.
pub proof fn lemma_first_press_stays(pending: Map<Button, u64>, button: Button, times: Seq<u64>)
    ensures
        spec_press_all(pending, button, times) == (if times.len() == 0 || pending.contains_key(
            button,
        ) {
            pending
        } else {
            pending.insert(button, times[0])
        }),
        spec_press_all(pending, button, times).contains_key(button) <==> (times.len() > 0
            || pending.contains_key(button)),
        forall|other: Button|
            other != button ==> (#[trigger] spec_press_all(pending, button, times).contains_key(
                other,
            ) <==> pending.contains_key(other)),
        forall|other: Button|
            other != button && pending.contains_key(other) ==> #[trigger] spec_press_all(
                pending,
                button,
                times,
            )[other] == pending[other],
    decreases times.len(),
{
    if times.len() > 0 {
        lemma_first_press_stays(pending, button, times.drop_last());
        if times.len() > 1 {
            assert(times.drop_last()[0] == times[0]);
        }
    }
}

/// A second report that a button is down changes nothing that the first has
/// not changed.
pub proof fn lemma_press_is_idempotent(
    pending: Map<Button, u64>,
    button: Button,
    first: u64,
    second: u64,
)
    ensures
        spec_press(spec_press(pending, button, first), button, second) == spec_press(
            pending,
            button,
            first,
        ),
        spec_press(pending, button, first)[button] == (if pending.contains_key(button) {
            pending[button]
        } else {
            first
        }),
{
}

/// Where the press that is waiting for a button is not later than the
/// release, the record of that release does not end before it begins. It is
/// made exactly when neither instant lies before the session.
pub proof fn lemma_release_not_before_press(
    start: u64,
    pending: Map<Button, u64>,
    button: Button,
    time: u64,
)
    requires
        pending.contains_key(button) ==> pending[button] <= time,
    ensures
        spec_release_record(start, pending, button, time).is_some() <==> start
            <= spec_press_instant(pending, button, time) && start <= time,
        match spec_release_record(start, pending, button, time) {
            Some(r) => r.press_time <= r.release_time && r.button == button && r.spec_held_for()
                == time - spec_press_instant(pending, button, time),
            None => true,
        },
{
}

/// A press at `press` that finds no press waiting, followed by the release at
/// `release`, gives a record of exactly the two instants, counted from the
/// session's beginning, and leaves nothing waiting for the button.
pub proof fn lemma_press_then_release(
    start: u64,
    pending: Map<Button, u64>,
    button: Button,
    press: u64,
    release: u64,
)
    requires
        !pending.contains_key(button),
        start <= press <= release,
    ensures
        spec_release_record(start, spec_press(pending, button, press), button, release) == Some(
            ControllerButtonEvent {
                press_time: (press - start) as u64,
                release_time: (release - start) as u64,
                button,
            },
        ),
        spec_press(pending, button, press).remove(button) == pending,
{
    assert(spec_press(pending, button, press).remove(button) =~= pending);
}

/// A release of a button for which no press is waiting gives a record that
/// begins and ends at the release.
pub proof fn lemma_release_without_press(
    start: u64,
    pending: Map<Button, u64>,
    button: Button,
    time: u64,
)
    requires
        !pending.contains_key(button),
    ensures
        spec_release_record(start, pending, button, time) == (if time < start {
            None
        } else {
            Some(
                ControllerButtonEvent {
                    press_time: (time - start) as u64,
                    release_time: (time - start) as u64,
                    button,
                },
            )
        }),
        match spec_release_record(start, pending, button, time) {
            Some(r) => r.press_time == r.release_time,
            None => true,
        },
{
}


/// The buttons of one gamepad that are down, each with the instant at which
/// it went down, and the instant at which the session began.
pub struct ButtonCorrelator {
    start: u64,
    pending: HashMap<u64, u64>,
}

impl ButtonCorrelator {
    /// Every key of the table is the code of a button.
    pub closed spec fn wf(&self) -> bool {
        forall|k: u64| #[trigger] self.pending@.contains_key(k) ==> k < BUTTON_COUNT
    }

    /// The instant at which the session began.
    pub closed spec fn spec_start(&self) -> u64 {
        self.start
    }

    /// The buttons that are down, each with the instant of its press.
    pub closed spec fn view(&self) -> Map<Button, u64> {
        Map::new(
            |b: Button| self.pending@.contains_key(b.spec_code()),
            |b: Button| self.pending@[b.spec_code()],
        )
    }

    /// A correlator for a session that begins at `start`, with no button down.
    pub fn new(start: u64) -> (c: ButtonCorrelator)
        ensures
            c.wf(),
            c.spec_start() == start,
            c@ == Map::<Button, u64>::empty(),
    {
        let c = ButtonCorrelator { start, pending: HashMap::new() };
        assert(c@ =~= Map::<Button, u64>::empty());
        c
    }

    #[verifier::when_used_as_spec(spec_start)]
    pub fn start(&self) -> (s: u64)
        ensures
            s == self.spec_start(),
    {
        self.start
    }

    /// The instant at which `button` went down, if it is down.
    pub fn pending_press(&self, button: Button) -> (p: Option<u64>)
        ensures
            p == (if self@.contains_key(button) {
                Some(self@[button])
            } else {
                None
            }),
    {
        let key: u64 = button.code();
        match self.pending.get(&key) {
            Some(t) => Some(*t),
            None => None,
        }
    }

    /// How many buttons are down.
    pub fn len(&self) -> (n: usize)
        requires
            self.wf(),
        ensures
            n == self@.dom().len(),
            self@.dom().finite(),
    {
        proof {
            self.lemma_view_len();
        }
        self.pending.len()
    }

    /// Whether no button is down.
    pub fn is_empty(&self) -> (e: bool)
        requires
            self.wf(),
        ensures
            e == (self@ == Map::<Button, u64>::empty()),
    {
        proof {
            self.lemma_view_len();
            if self@.dom().len() == 0 {
                assert(self@.dom() =~= Set::<Button>::empty());
                assert(self@ =~= Map::<Button, u64>::empty());
            }
        }
        self.pending.len() == 0
    }

    /// The buttons that are down are as many as the keys of the table.
    proof fn lemma_view_len(&self)
        requires
            self.wf(),
        ensures
            self@.dom().finite(),
            self@.dom().len() == self.pending@.dom().len(),
    {
        let keys = self.pending@.dom();
        let buttons = self@.dom();
        let f = |k: u64| Button::spec_from_code(k);
        assert(vstd::relations::injective_on(f, keys)) by {
            assert forall|k1: u64, k2: u64|
                keys.contains(k1) && keys.contains(k2) && #[trigger] f(k1) == #[trigger] f(
                    k2,
                ) implies k1 == k2 by {
                assert(self.pending@.contains_key(k1));
                assert(self.pending@.contains_key(k2));
                assert(Button::spec_from_code(k1).spec_code() == k1);
                assert(Button::spec_from_code(k2).spec_code() == k2);
            }
        }
        assert(keys.map(f) =~= buttons) by {
            assert forall|b: Button| buttons.contains(b) implies keys.map(f).contains(b) by {
                b.lemma_code_round_trip();
                assert(keys.contains(b.spec_code()) && f(b.spec_code()) == b);
            }
            assert forall|b: Button| keys.map(f).contains(b) implies buttons.contains(b) by {
                let k = choose|k: u64| keys.contains(k) && f(k) == b;
                assert(self.pending@.contains_key(k));
                assert(Button::spec_from_code(k).spec_code() == k);
            }
        }
        vstd::set_lib::lemma_map_size(keys, buttons, f);
    }

    /// Takes in one report on `button`. A value other than zero says that the
    /// button is down: its press is noted unless one is waiting already, and
    /// there is no record. Zero says that it came up: what was waiting is
    /// taken away and the record is made, with the release standing in for a
    /// press that was never seen, and with no record for an instant from
    /// before the session.
    pub fn observe(&mut self, button: Button, value: AnalogValue, time: u64) -> (record: Option<
        ControllerButtonEvent,
    >)
        requires
            old(self).wf(),
        ensures
            final(self).wf(),
            final(self).spec_start() == old(self).spec_start(),
            value.spec_is_zero() ==> final(self)@ == old(self)@.remove(button) && record
                == spec_release_record(old(self).spec_start(), old(self)@, button, time),
            !value.spec_is_zero() ==> final(self)@ == spec_press(old(self)@, button, time)
                && record.is_none(),
    {
        let key: u64 = button.code();
        if value.is_zero() {
            let waiting = self.pending.remove(&key);
            let press: u64 = match waiting {
                Some(t) => t,
                None => time,
            };
            proof {
                Self::lemma_other_keys(button);
                assert(final(self)@ =~= old(self)@.remove(button));
            }
            if press < self.start || time < self.start {
                None
            } else {
                Some(
                    ControllerButtonEvent {
                        press_time: press - self.start,
                        release_time: time - self.start,
                        button,
                    },
                )
            }
        } else {
            if !self.pending.contains_key(&key) {
                self.pending.insert(key, time);
            }
            proof {
                Self::lemma_other_keys(button);
                assert(final(self)@ =~= spec_press(old(self)@, button, time));
            }
            None
        }
    }

    /// Forgets every press that is waiting and begins anew at `start`.
    pub fn reset(&mut self, start: u64)
        ensures
            final(self).wf(),
            final(self).spec_start() == start,
            final(self)@ == Map::<Button, u64>::empty(),
    {
        self.pending.clear();
        self.start = start;
        assert(self@ =~= Map::<Button, u64>::empty());
    }

    /// Another button has another code, so what is done under one button's
    /// code leaves the others as they were.
    proof fn lemma_other_keys(button: Button)
        ensures
            forall|b: Button| b != button ==> #[trigger] b.spec_code() != button.spec_code(),
    {
        assert forall|b: Button| b != button implies #[trigger] b.spec_code()
            != button.spec_code() by {
            b.lemma_code_round_trip();
            button.lemma_code_round_trip();
        }
    }
}

} // verus!
