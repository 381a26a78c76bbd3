//! What the user interface keeps: the gamepads that are connected, and
//! whether a recording is running.

use crate::gilrs_loop::{
    spec_start_recording, ControllerState, GELEvent, GilrsEventLoop, StartRecordingError,
};
use crate::notify::{ControllerHighlightEvent, HighlightEventView};
use crate::stateful_text::{StatefulText, TextColor, TextState};
use vstd::prelude::*;

verus! {

/// A connected gamepad as the user interface lists it.
#[derive(Debug, PartialEq, Eq)]
pub struct ControllerEntry {
    /// The gamepad's identifier.
    pub id: usize,
    /// The gamepad's name.
    pub name: String,
    /// The colour in which the gamepad is listed: white while it is being
    /// used, gray while it rests.
    pub color: TextColor,
}

/// A `ControllerEntry` with its name as a sequence of characters.
pub struct EntryView {
    pub id: usize,
    pub name: Seq<char>,
    pub color: TextColor,
}

impl View for ControllerEntry {
    type V = EntryView;

    open spec fn view(&self) -> EntryView {
        EntryView { id: self.id, name: self.name@, color: self.color }
    }
}

/// Whether the gamepad `id` is listed.
pub open spec fn spec_listed(entries: Seq<EntryView>, id: usize) -> bool {
    exists|i: int| 0 <= i < entries.len() && (#[trigger] entries[i]).id == id
}

/// No gamepad is listed twice.
pub open spec fn spec_distinct(entries: Seq<EntryView>) -> bool {
    forall|i: int, j: int|
        0 <= i < entries.len() && 0 <= j < entries.len() && i != j ==> (#[trigger] entries[i]).id
            != (#[trigger] entries[j]).id
}

/// The list with the gamepad `id` shown in `color`; a gamepad that is not
/// listed changes nothing.
pub open spec fn spec_recolor(entries: Seq<EntryView>, id: usize, color: TextColor) -> Seq<
    EntryView,
> {
    Seq::new(
        entries.len(),
        |i: int|
            if entries[i].id == id {
                EntryView { id, name: entries[i].name, color }
            } else {
                entries[i]
            },
    )
}

/// The list after the gamepad `id`, called `name`, has come: it is listed in
/// gray, in its old place if it was listed and at the end if not.
pub open spec fn spec_put(entries: Seq<EntryView>, id: usize, name: Seq<char>) -> Seq<EntryView> {
    let entry = EntryView { id, name, color: TextColor::Gray };
    if spec_listed(entries, id) {
        Seq::new(
            entries.len(),
            |i: int|
                if entries[i].id == id {
                    entry
                } else {
                    entries[i]
                },
        )
    } else {
        entries.push(entry)
    }
}

/// The list without the gamepad `id`.
pub open spec fn spec_drop(entries: Seq<EntryView>, id: usize) -> Seq<EntryView>
    decreases entries.len(),
{
    if entries.len() == 0 {
        entries
    } else if entries.last().id == id {
        spec_drop(entries.drop_last(), id)
    } else {
        spec_drop(entries.drop_last(), id).push(entries.last())
    }
}

/// The list after a notice of the capture loop.
pub open spec fn spec_after_notice(entries: Seq<EntryView>, notice: HighlightEventView) -> Seq<
    EntryView,
> {
    match notice {
        HighlightEventView::Highlight(id) => spec_recolor(entries, id, TextColor::White),
        HighlightEventView::Unhighlight(id) => spec_recolor(entries, id, TextColor::Gray),
        HighlightEventView::ConnectionEvent(e) => if e.connected {
            spec_put(entries, e.controller_id, e.gamepad_name)
        } else {
            spec_drop(entries, e.controller_id)
        },
    }
}

/// The entries of a list, each with its name as a sequence of characters.
pub open spec fn spec_entries(entries: Seq<ControllerEntry>) -> Seq<EntryView> {
    Seq::new(entries.len(), |i: int| entries[i]@)
}

/// Dropping a gamepad that is not listed changes nothing.
proof fn lemma_drop_absent(entries: Seq<EntryView>, id: usize)
    requires
        !spec_listed(entries, id),
    ensures
        spec_drop(entries, id) == entries,
    decreases entries.len(),
{
    if entries.len() > 0 {
        let front = entries.drop_last();
        assert(entries[entries.len() - 1].id != id);
        assert forall|j: int| 0 <= j < front.len() implies (#[trigger] front[j]).id != id by {
            assert(entries[j].id != id);
        }
        lemma_drop_absent(front, id);
        assert(front.push(entries.last()) =~= entries);
    }
}

/// Where no gamepad is listed twice, dropping a gamepad leaves the list
/// without the place where it stood.
proof fn lemma_drop_at(entries: Seq<EntryView>, i: int)
    requires
        spec_distinct(entries),
        0 <= i < entries.len(),
    ensures
        spec_drop(entries, entries[i].id) == entries.remove(i),
    decreases entries.len(),
{
    let id = entries[i].id;
    let front = entries.drop_last();
    if i == entries.len() - 1 {
        assert forall|j: int| 0 <= j < front.len() implies (#[trigger] front[j]).id != id by {
            assert(entries[j].id != entries[i].id);
        }
        lemma_drop_absent(front, id);
        assert(entries.remove(i) =~= front);
    } else {
        assert(entries[entries.len() - 1].id != entries[i].id);
        assert(spec_distinct(front)) by {
            assert forall|a: int, b: int|
                0 <= a < front.len() && 0 <= b < front.len() && a != b implies (
            #[trigger] front[a]).id != (#[trigger] front[b]).id by {
                assert(entries[a].id != entries[b].id);
            }
        }
        assert(front[i] == entries[i]);
        lemma_drop_at(front, i);
        assert(front.remove(i).push(entries.last()) =~= entries.remove(i));
    }
}

/// The gamepads that are connected, in the order in which they came.
#[derive(Debug)]
pub struct ConnectedControllers {
    entries: Vec<ControllerEntry>,
}

impl ConnectedControllers {
    /// The gamepads that are listed.
    pub closed spec fn view(&self) -> Seq<EntryView> {
        spec_entries(self.entries@)
    }

    /// No gamepad is listed twice.
    pub open spec fn wf(&self) -> bool {
        spec_distinct(self@)
    }

    /// A list with no gamepad.
    pub fn new() -> (list: ConnectedControllers)
        ensures
            list.wf(),
            list@ == Seq::<EntryView>::empty(),
    {
        let list = ConnectedControllers { entries: Vec::new() };
        assert(list@ =~= Seq::<EntryView>::empty());
        list
    }

    /// How many gamepads are listed.
    pub fn len(&self) -> (n: usize)
        ensures
            n == self@.len(),
    {
        self.entries.len()
    }

    /// Whether no gamepad is listed.
    pub fn is_empty(&self) -> (e: bool)
        ensures
            e == (self@.len() == 0),
    {
        self.entries.len() == 0
    }

    /// The gamepad at place `i` of the list.
    pub fn get(&self, i: usize) -> (entry: Option<&ControllerEntry>)
        ensures
            i < self@.len() ==> entry.is_some() && entry.unwrap()@ == self@[i as int],
            i >= self@.len() ==> entry.is_none(),
    {
        if i < self.entries.len() {
            Some(&self.entries[i])
        } else {
            None
        }
    }

    /// Where the gamepad `id` stands in the list, if it is listed.
    pub fn position(&self, id: usize) -> (place: Option<usize>)
        ensures
            match place {
                Some(i) => i < self@.len() && self@[i as int].id == id && forall|j: int|
                    0 <= j < i ==> (#[trigger] self@[j]).id != id,
                None => !spec_listed(self@, id),
            },
    {
        let mut i: usize = 0;
        while i < self.entries.len()
            invariant
                0 <= i <= self.entries.len(),
                forall|j: int| 0 <= j < i ==> (#[trigger] self@[j]).id != id,
            decreases self.entries.len() - i,
        {
            if self.entries[i].id == id {
                return Some(i);
            }
            i = i + 1;
        }
        None
    }

    /// Shows the gamepad `id` in `color`, if it is listed.
    pub fn recolor(&mut self, id: usize, color: TextColor)
        ensures
            final(self)@ == spec_recolor(old(self)@, id, color),
            old(self).wf() ==> final(self).wf(),
    {
        let mut i: usize = 0;
        while i < self.entries.len()
            invariant
                0 <= i <= self.entries.len(),
                self.entries.len() == old(self).entries.len(),
                forall|j: int|
                    0 <= j < i ==> (#[trigger] self.entries[j])@ == spec_recolor(
                        old(self)@,
                        id,
                        color,
                    )[j],
                forall|j: int|
                    i <= j < self.entries.len() ==> (#[trigger] self.entries[j])
                        == old(self).entries[j],
            decreases self.entries.len() - i,
        {
            if self.entries[i].id == id {
                self.entries[i].color = color;
            }
            i = i + 1;
        }
        assert(self@ =~= spec_recolor(old(self)@, id, color));
    }

    /// Lists the gamepad `id`, called `name`, in gray: in its old place if it
    /// was listed, at the end if not.
    pub fn put(&mut self, id: usize, name: String)
        requires
            old(self).wf(),
        ensures
            final(self).wf(),
            final(self)@ == spec_put(old(self)@, id, name@),
    {
        match self.position(id) {
            Some(i) => {
                self.entries[i].name = name;
                self.entries[i].color = TextColor::Gray;
                assert(self@ =~= spec_put(old(self)@, id, name@)) by {
                    assert(old(self)@[i as int].id == id);
                    assert forall|j: int| 0 <= j < self@.len() implies self@[j] == spec_put(
                        old(self)@,
                        id,
                        name@,
                    )[j] by {
                        if j != i {
                            assert(old(self)@[j].id != old(self)@[i as int].id);
                        }
                    }
                }
            },
            None => {
                self.entries.push(ControllerEntry { id, name, color: TextColor::Gray });
                assert(self@ =~= spec_put(old(self)@, id, name@));
                assert(self.wf()) by {
                    assert forall|a: int, b: int|
                        0 <= a < self@.len() && 0 <= b < self@.len() && a != b implies (
                    #[trigger] self@[a]).id != (#[trigger] self@[b]).id by {
                        if a < old(self)@.len() && b < old(self)@.len() {
                            assert(old(self)@[a].id != old(self)@[b].id);
                        } else if a < old(self)@.len() {
                            assert(old(self)@[a].id != id);
                        } else {
                            assert(old(self)@[b].id != id);
                        }
                    }
                }
            },
        }
    }

    /// Takes the gamepad `id` off the list, if it is listed.
    pub fn drop_controller(&mut self, id: usize)
        requires
            old(self).wf(),
        ensures
            final(self).wf(),
            final(self)@ == spec_drop(old(self)@, id),
    {
        match self.position(id) {
            Some(i) => {
                self.entries.remove(i);
                proof {
                    lemma_drop_at(old(self)@, i as int);
                    assert(self@ =~= old(self)@.remove(i as int));
                    assert forall|a: int, b: int|
                        0 <= a < self@.len() && 0 <= b < self@.len() && a != b implies (
                    #[trigger] self@[a]).id != (#[trigger] self@[b]).id by {
                        let a0 = if a < i { a } else { a + 1 };
                        let b0 = if b < i { b } else { b + 1 };
                        assert(old(self)@[a0].id != old(self)@[b0].id);
                    }
                }
            },
            None => {
                proof {
                    lemma_drop_absent(old(self)@, id);
                }
            },
        }
    }

    /// Takes in one notice of the capture loop: a gamepad that is being used
    /// is shown in white, one that rests in gray; one that has come is
    /// listed, one that has gone is taken off the list.
    pub fn handle_highlight_event(&mut self, event: ControllerHighlightEvent)
        requires
            old(self).wf(),
        ensures
            final(self).wf(),
            final(self)@ == spec_after_notice(old(self)@, event@),
    {
        match event {
            ControllerHighlightEvent::Highlight(id) => {
                self.recolor(id, TextColor::White);
            },
            ControllerHighlightEvent::Unhighlight(id) => {
                self.recolor(id, TextColor::Gray);
            },
            ControllerHighlightEvent::ConnectionEvent(e) => {
                if e.connected {
                    self.put(e.controller_id, e.gamepad_name);
                } else {
                    self.drop_controller(e.controller_id);
                }
            },
        }
    }
}

/// What the user interface keeps between two frames.
#[derive(Debug)]
pub struct RecordingControls {
    /// The line beside the button that starts and stops a recording.
    pub saved_text: StatefulText,
    /// The gamepads that are connected.
    pub connected_controllers: ConnectedControllers,
    /// The recording controller.
    pub event_loop: GilrsEventLoop,
    /// Whether the user has agreed to close the program in the middle of a
    /// recording.
    pub allow_close: bool,
    /// Whether the user is being asked to agree.
    pub show_close_confirmation: bool,
}

/// What a click on the button gives in the state `state` with `connected`
/// gamepads: a running recording is stopped, else one is started if it can
/// be.
pub open spec fn spec_click(state: ControllerState, connected: usize) -> Result<
    (ControllerState, GELEvent),
    StartRecordingError,
> {
    if connected == 0 {
        Err(StartRecordingError::NoControllers)
    } else if state == ControllerState::Recording {
        Ok((ControllerState::Listening, GELEvent::StopRecording))
    } else {
        match spec_start_recording(state, connected) {
            Ok(next) => Ok((next, GELEvent::StartRecording)),
            Err(e) => Err(e),
        }
    }
}

/// The line of text after a click that led to `command`.
pub open spec fn spec_click_text(command: GELEvent) -> Seq<char> {
    match command {
        GELEvent::StopRecording => "Saved!"@,
        _ => Seq::<char>::empty(),
    }
}

/// The line of text, and how it is meant, after a click that was turned
/// down: a warning where no gamepad is connected, an error else.
pub open spec fn spec_refusal(e: StartRecordingError) -> (Seq<char>, TextState) {
    match e {
        StartRecordingError::NoControllers => ("No controllers connected!"@, TextState::Warning),
        StartRecordingError::NotListening => ("The event loop is not running!"@, TextState::Error),
        StartRecordingError::AlreadyRecording => ("Already recording!"@, TextState::Error),
    }
}

impl RecordingControls {
    /// Everything but the line of text and the controller is as it was.
    pub open spec fn spec_rest_kept(&self, before: &RecordingControls) -> bool {
        &&& self.connected_controllers@ == before.connected_controllers@
        &&& self.allow_close == before.allow_close
        &&& self.show_close_confirmation == before.show_close_confirmation
    }

    /// The controls of a program that has just begun: no gamepad, no loop,
    /// nothing to say.
    pub fn new() -> (controls: RecordingControls)
        ensures
            controls.connected_controllers.wf(),
            controls.connected_controllers@ == Seq::<EntryView>::empty(),
            controls.saved_text.text@ == Seq::<char>::empty(),
            controls.saved_text.state == TextState::Default,
            controls.event_loop.spec_state() == ControllerState::Idle,
            !controls.allow_close,
            !controls.show_close_confirmation,
    {
        RecordingControls {
            saved_text: StatefulText::new(String::new(), TextState::Default),
            connected_controllers: ConnectedControllers::new(),
            event_loop: GilrsEventLoop::new(),
            allow_close: false,
            show_close_confirmation: false,
        }
    }

    /// What the button that starts and stops a recording is labelled with.
    pub fn start_button_text(&self) -> (label: &'static str)
        ensures
            label@ == (if self.event_loop.spec_is_recording() {
                "Stop"@
            } else {
                "Start"@
            }),
    {
        if self.event_loop.is_recording() {
            "Stop"
        } else {
            "Start"
        }
    }

    /// The button that starts and stops a recording has been clicked. A
    /// running recording is stopped and a new one started, and the result is
    /// the command for the capture loop. A click that cannot be followed is
    /// turned down: with no gamepad connected, or with no loop to record,
    /// the line of text says so, nothing else changes and there is no
    /// command.
    pub fn handle_start_clicked(&mut self) -> (command: Option<GELEvent>)
        ensures
            final(self).spec_rest_kept(old(self)),
            match spec_click(
                old(self).event_loop.spec_state(),
                old(self).connected_controllers@.len() as usize,
            ) {
                Ok((next, sent)) => {
                    &&& command == Some(sent)
                    &&& final(self).event_loop.spec_state() == next
                    &&& final(self).saved_text.text@ == spec_click_text(sent)
                    &&& final(self).saved_text.state == old(self).saved_text.state
                },
                Err(e) => {
                    &&& command.is_none()
                    &&& final(self).event_loop.spec_state() == old(self).event_loop.spec_state()
                    &&& final(self).saved_text.text@ == spec_refusal(e).0
                    &&& final(self).saved_text.state == spec_refusal(e).1
                },
            },
    {
        let connected = self.connected_controllers.len();
        if connected > 0 && self.event_loop.is_recording() {
            let command = self.event_loop.stop_recording();
            self.saved_text.text = String::from_str("Saved!");
            return command;
        }
        match self.event_loop.start_recording(connected) {
            Ok(command) => {
                self.saved_text.text = String::new();
                Some(command)
            },
            Err(e) => {
                self.saved_text.text = e.message();
                self.saved_text.state = match e {
                    StartRecordingError::NoControllers => TextState::Warning,
                    _ => TextState::Error,
                };
                None
            },
        }
    }

    /// The user wants to close the program. With no recording running the
    /// program may close. In the middle of one the user is asked first, and
    /// the program may close once the user has agreed.
    pub fn on_close_event(&mut self) -> (close: bool)
        ensures
            final(self).connected_controllers@ == old(self).connected_controllers@,
            final(self).event_loop == old(self).event_loop,
            final(self).allow_close == old(self).allow_close,
            final(self).saved_text == old(self).saved_text,
            close == (!old(self).event_loop.spec_is_recording() || old(self).allow_close),
            final(self).show_close_confirmation == (old(self).event_loop.spec_is_recording()
                || old(self).show_close_confirmation),
    {
        if self.event_loop.is_recording() {
            self.show_close_confirmation = true;
            self.allow_close
        } else {
            true
        }
    }

    /// The user has agreed to close the program: the program may close, and
    /// a recording that is running is over; the result is the command for
    /// the capture loop, if there is a recording to stop.
    pub fn confirm_close(&mut self) -> (command: Option<GELEvent>)
        ensures
            final(self).allow_close,
            !final(self).event_loop.spec_is_recording(),
            old(self).event_loop.spec_is_recording() ==> command == Some(GELEvent::StopRecording)
                && final(self).event_loop.spec_state() == ControllerState::Listening,
            !old(self).event_loop.spec_is_recording() ==> command.is_none()
                && final(self).event_loop.spec_state() == old(self).event_loop.spec_state(),
            final(self).connected_controllers@ == old(self).connected_controllers@,
            final(self).show_close_confirmation == old(self).show_close_confirmation,
            final(self).saved_text == old(self).saved_text,
    {
        self.allow_close = true;
        self.event_loop.stop_recording()
    }

    /// The user has not agreed to close the program: the question goes away
    /// and the recording goes on.
    pub fn cancel_close(&mut self)
        ensures
            !final(self).show_close_confirmation,
            final(self).allow_close == old(self).allow_close,
            final(self).event_loop == old(self).event_loop,
            final(self).connected_controllers@ == old(self).connected_controllers@,
            final(self).saved_text == old(self).saved_text,
    {
        self.show_close_confirmation = false;
    }
}

impl Default for RecordingControls {
    fn default() -> (controls: RecordingControls)
        ensures
            controls.connected_controllers.wf(),
            controls.connected_controllers@ == Seq::<EntryView>::empty(),
            controls.event_loop.spec_state() == ControllerState::Idle,
            !controls.allow_close,
            !controls.show_close_confirmation,
    {
        RecordingControls::new()
    }
}

} // verus!
