//! What the capture loop does with each event of a gamepad and with each
//! command, and the switch by which the loop is started and stopped.

use crate::capture::{
    spec_all_stopped, spec_connect, spec_disconnect, spec_forward, spec_forward_record,
    spec_running, CaptureLoop, LoopView,
};
use crate::input::{AnalogValue, RawInputEvent};
use crate::naming::{session_file_names, spec_buttons_kind, spec_file_name, spec_sticks_kind};
use crate::notify::{
    connection_notice, spec_connection_notice, ControllerHighlightEvent, GamepadInfo,
    HighlightEventView,
};
use crate::records::SessionRecord;
use vstd::prelude::*;

verus! {

/// A command to the capture loop.
#[derive(Clone, Copy, Debug, PartialEq, Eq, Structural)]
pub enum GELEvent {
    GetAllControllers,
    StartRecording,
    StopRecording,
}

/// Why the capture loop could not be started.
#[derive(Clone, Copy, Debug, PartialEq, Eq, Structural)]
pub enum GilrsEventLoopError {
    /// The loop is there already.
    NoLoopHandle,
}

impl GilrsEventLoopError {
    /// The error in words.
    pub fn message(&self) -> (text: String)
        ensures
            text@ == "no event loop join handle"@,
    {
        match self {
            GilrsEventLoopError::NoLoopHandle => String::from_str("no event loop join handle"),
        }
    }
}

/// Something for the capture loop to do outside itself.
#[derive(Clone, Debug, PartialEq, Eq)]
pub enum LoopAction {
    /// Tell the user interface.
    Notify(ControllerHighlightEvent),
    /// Ask the user interface to draw itself anew.
    RequestRepaint,
    /// Open the two files of a new session for a gamepad. Once they are open,
    /// the loop is told so; files of that gamepad that were open are closed.
    OpenSession { device: usize, button_file: String, stick_file: String },
    /// Close the files of a gamepad's session.
    CloseSession { device: usize },
    /// Write a record to the file of its kind, and flush.
    Write { device: usize, record: SessionRecord },
}

/// A `LoopAction` with its texts as sequences of characters.
pub enum LoopActionView {
    Notify(HighlightEventView),
    RequestRepaint,
    OpenSession { device: usize, button_file: Seq<char>, stick_file: Seq<char> },
    CloseSession { device: usize },
    Write { device: usize, record: SessionRecord },
}

impl View for LoopAction {
    type V = LoopActionView;

    open spec fn view(&self) -> LoopActionView {
        match self {
            LoopAction::Notify(e) => LoopActionView::Notify(e@),
            LoopAction::RequestRepaint => LoopActionView::RequestRepaint,
            LoopAction::OpenSession { device, button_file, stick_file } => {
                LoopActionView::OpenSession {
                    device: *device,
                    button_file: button_file@,
                    stick_file: stick_file@,
                }
            },
            LoopAction::CloseSession { device } => LoopActionView::CloseSession { device: *device },
            LoopAction::Write { device, record } => LoopActionView::Write {
                device: *device,
                record: *record,
            },
        }
    }
}

/// A list of actions, each with its texts as sequences of characters.
pub open spec fn spec_views(actions: Seq<LoopAction>) -> Seq<LoopActionView> {
    Seq::new(actions.len(), |i: int| actions[i]@)
}

/// The notice that a gamepad is being used, or has come to rest: a value of
/// zero is rest, any other is use.
pub open spec fn spec_highlight(device: usize, value: AnalogValue) -> LoopActionView {
    if value.spec_is_zero() {
        LoopActionView::Notify(HighlightEventView::Unhighlight(device))
    } else {
        LoopActionView::Notify(HighlightEventView::Highlight(device))
    }
}

/// Whether a session is running for the gamepad `device`.
pub open spec fn spec_is_recording(v: LoopView, device: usize) -> bool {
    v.writers.contains_key(device) && v.writers[device].session.is_some()
}

/// What there is to do for a record, if there is one.
pub open spec fn spec_write(device: usize, record: Option<SessionRecord>) -> Seq<LoopActionView> {
    match record {
        Some(r) => seq![LoopActionView::Write { device, record: r }],
        None => Seq::<LoopActionView>::empty(),
    }
}

/// What there is to do for a session that ends, if one was running.
pub open spec fn spec_close(device: usize, running: bool) -> Seq<LoopActionView> {
    if running {
        seq![LoopActionView::CloseSession { device }]
    } else {
        Seq::<LoopActionView>::empty()
    }
}

/// What the loop does on `event` of a gamepad called `name`.
///
/// A move of an axis or a change of a button goes to the gamepad's recorder:
/// first the record is written, if the event completes one, then the user
/// interface gets its notice and is asked to draw. A gamepad that comes or
/// goes has its running session closed, and the user interface is told.
pub open spec fn spec_gilrs_actions(v: LoopView, event: RawInputEvent, name: Seq<char>) -> Seq<
    LoopActionView,
> {
    match event {
        RawInputEvent::AxisChanged { device, value, .. } => spec_write(
            device,
            spec_forward_record(v, event),
        ) + seq![spec_highlight(device, value), LoopActionView::RequestRepaint],
        RawInputEvent::ButtonChanged { device, value, .. } => spec_write(
            device,
            spec_forward_record(v, event),
        ) + seq![spec_highlight(device, value), LoopActionView::RequestRepaint],
        RawInputEvent::Connected { device } => spec_close(device, spec_is_recording(v, device))
            + seq![LoopActionView::Notify(spec_connection_notice(true, device, name))],
        RawInputEvent::Disconnected { device } => spec_close(device, spec_is_recording(v, device))
            + seq![LoopActionView::Notify(spec_connection_notice(false, device, name))],
    }
}

/// The table after `event` of a gamepad called `name`.
pub open spec fn spec_gilrs_after(v: LoopView, event: RawInputEvent, name: Seq<char>) -> LoopView {
    match event {
        RawInputEvent::AxisChanged { .. } => spec_forward(v, event),
        RawInputEvent::ButtonChanged { .. } => spec_forward(v, event),
        RawInputEvent::Connected { device } => spec_connect(v, device, name),
        RawInputEvent::Disconnected { device } => spec_disconnect(v, device),
    }
}

/// Takes in one event of the input backend, from a gamepad called
/// `gamepad_name`, and gives what there is to do, in order.
pub fn handle_gilrs_event(
    event: RawInputEvent,
    writer_thread_map: &mut CaptureLoop,
    gamepad_name: &str,
) -> (actions: Vec<LoopAction>)
    requires
        old(writer_thread_map).wf(),
    ensures
        final(writer_thread_map).wf(),
        final(writer_thread_map)@ == spec_gilrs_after(
            old(writer_thread_map)@,
            event,
            gamepad_name@,
        ),
        spec_views(actions@) == spec_gilrs_actions(old(writer_thread_map)@, event, gamepad_name@),
{
    let mut actions: Vec<LoopAction> = Vec::new();
    match event {
        RawInputEvent::AxisChanged { device, value, .. }
        | RawInputEvent::ButtonChanged { device, value, .. } => {
            match writer_thread_map.forward(event) {
                Some(record) => {
                    actions.push(LoopAction::Write { device, record });
                },
                None => {},
            }
            let highlight_event = if value.is_zero() {
                ControllerHighlightEvent::Unhighlight(device)
            } else {
                ControllerHighlightEvent::Highlight(device)
            };
            actions.push(LoopAction::Notify(highlight_event));
            actions.push(LoopAction::RequestRepaint);
        },
        RawInputEvent::Connected { device } => {
            let was = writer_thread_map.connect(device, gamepad_name);
            if was.1 {
                actions.push(LoopAction::CloseSession { device });
            }
            actions.push(LoopAction::Notify(connection_notice(true, device, gamepad_name)));
        },
        RawInputEvent::Disconnected { device } => {
            let was = writer_thread_map.disconnect(device);
            if was.1 {
                actions.push(LoopAction::CloseSession { device });
            }
            actions.push(LoopAction::Notify(connection_notice(false, device, gamepad_name)));
        },
    }
    assert(spec_views(actions@) =~= spec_gilrs_actions(
        old(writer_thread_map)@,
        event,
        gamepad_name@,
    ));
    actions
}

/// The notices that tell the user interface of each of `gamepads`.
pub open spec fn spec_all_controllers(gamepads: Seq<GamepadInfo>) -> Seq<LoopActionView> {
    Seq::new(
        gamepads.len(),
        |i: int|
            LoopActionView::Notify(spec_connection_notice(true, gamepads[i].id, gamepads[i].name@)),
    )
}

/// The opening of a session stamped `stamp` for each gamepad of the table.
pub open spec fn spec_open_all(v: LoopView, stamp: Seq<char>) -> Seq<LoopActionView> {
    Seq::new(
        v.order.len(),
        |i: int|
            LoopActionView::OpenSession {
                device: v.order[i],
                button_file: spec_file_name(
                    v.writers[v.order[i]].prefix,
                    spec_buttons_kind(),
                    stamp,
                ),
                stick_file: spec_file_name(v.writers[v.order[i]].prefix, spec_sticks_kind(), stamp),
            },
    )
}

/// The closing of each running session.
pub open spec fn spec_close_all(v: LoopView) -> Seq<LoopActionView> {
    let running = spec_running(v.order, v.writers);
    Seq::new(running.len(), |i: int| LoopActionView::CloseSession { device: running[i] })
}

/// What the loop does on a command.
///
/// Asked for the gamepads, it tells the user interface of each of
/// `gamepads`. Told to record, it opens a session for every gamepad of the
/// table. Told to stop, it closes every session that is running.
pub open spec fn spec_gel_actions(
    v: LoopView,
    command: GELEvent,
    gamepads: Seq<GamepadInfo>,
    stamp: Seq<char>,
) -> Seq<LoopActionView> {
    match command {
        GELEvent::GetAllControllers => spec_all_controllers(gamepads),
        GELEvent::StartRecording => spec_open_all(v, stamp),
        GELEvent::StopRecording => spec_close_all(v),
    }
}

/// The table after a command: only the command to stop changes it.
pub open spec fn spec_gel_after(v: LoopView, command: GELEvent) -> LoopView {
    match command {
        GELEvent::StopRecording => spec_all_stopped(v),
        _ => v,
    }
}

/// Ends every session and gives the closing of each that was running.
fn close_all(writer_thread_map: &mut CaptureLoop) -> (actions: Vec<LoopAction>)
    requires
        old(writer_thread_map).wf(),
    ensures
        final(writer_thread_map).wf(),
        final(writer_thread_map)@ == spec_all_stopped(old(writer_thread_map)@),
        spec_views(actions@) == spec_close_all(old(writer_thread_map)@),
{
    let closed = writer_thread_map.stop_all();
    let mut actions: Vec<LoopAction> = Vec::new();
    let mut i: usize = 0;
    while i < closed.len()
        invariant
            0 <= i <= closed.len(),
            actions.len() == i,
            forall|j: int|
                0 <= j < i ==> (#[trigger] actions[j])@ == (LoopActionView::CloseSession {
                    device: closed[j],
                }),
        decreases closed.len() - i,
    {
        actions.push(LoopAction::CloseSession { device: closed[i] });
        i = i + 1;
    }
    assert(spec_views(actions@) =~= spec_close_all(old(writer_thread_map)@));
    actions
}

/// Takes in one command and gives what there is to do, in order. `gamepads`
/// are the gamepads that the input backend lists; `stamp` is the stamp of a
/// session that would begin now.
pub fn handle_gel_event(
    next_event: &GELEvent,
    gamepads: &Vec<GamepadInfo>,
    writer_thread_map: &mut CaptureLoop,
    stamp: &str,
) -> (actions: Vec<LoopAction>)
    requires
        old(writer_thread_map).wf(),
    ensures
        final(writer_thread_map).wf(),
        final(writer_thread_map)@ == spec_gel_after(old(writer_thread_map)@, *next_event),
        spec_views(actions@) == spec_gel_actions(
            old(writer_thread_map)@,
            *next_event,
            gamepads@,
            stamp@,
        ),
{
    match next_event {
        GELEvent::GetAllControllers => {
            let mut actions: Vec<LoopAction> = Vec::new();
            let mut i: usize = 0;
            while i < gamepads.len()
                invariant
                    0 <= i <= gamepads.len(),
                    actions.len() == i,
                    forall|j: int|
                        0 <= j < i ==> (#[trigger] actions[j])@ == LoopActionView::Notify(
                            spec_connection_notice(true, gamepads[j].id, gamepads[j].name@),
                        ),
                decreases gamepads.len() - i,
            {
                let gamepad = &gamepads[i];
                actions.push(
                    LoopAction::Notify(connection_notice(true, gamepad.id, gamepad.name.as_str())),
                );
                i = i + 1;
            }
            assert(spec_views(actions@) =~= spec_all_controllers(gamepads@));
            actions
        },
        GELEvent::StartRecording => {
            let mut actions: Vec<LoopAction> = Vec::new();
            let mut i: usize = 0;
            while i < writer_thread_map.len()
                invariant
                    0 <= i <= writer_thread_map@.order.len(),
                    writer_thread_map.wf(),
                    actions.len() == i,
                    forall|j: int|
                        0 <= j < i ==> (#[trigger] actions[j])@ == spec_open_all(
                            writer_thread_map@,
                            stamp@,
                        )[j],
                decreases writer_thread_map@.order.len() - i,
            {
                let device = writer_thread_map.id_at(i);
                let names = session_file_names(writer_thread_map.prefix_at(i), stamp);
                actions.push(
                    LoopAction::OpenSession { device, button_file: names.0, stick_file: names.1 },
                );
                i = i + 1;
            }
            assert(spec_views(actions@) =~= spec_open_all(writer_thread_map@, stamp@));
            actions
        },
        GELEvent::StopRecording => close_all(writer_thread_map),
    }
}

/// What the loop does when it ends: every session that is running is closed.
pub fn shutdown(writer_thread_map: &mut CaptureLoop) -> (actions: Vec<LoopAction>)
    requires
        old(writer_thread_map).wf(),
    ensures
        final(writer_thread_map).wf(),
        final(writer_thread_map)@ == spec_all_stopped(old(writer_thread_map)@),
        spec_views(actions@) == spec_close_all(old(writer_thread_map)@),
        forall|device: usize| !spec_is_recording(final(writer_thread_map)@, device),
{
    close_all(writer_thread_map)
}

/// Where the recording controller stands.
#[derive(Clone, Copy, Debug, PartialEq, Eq, Structural)]
pub enum ControllerState {
    /// The capture loop is not there.
    Idle,
    /// The capture loop polls the gamepads and records nothing.
    Listening,
    /// The capture loop polls the gamepads and records what they do.
    Recording,
}

/// Why a recording could not be started.
#[derive(Clone, Copy, Debug, PartialEq, Eq, Structural)]
pub enum StartRecordingError {
    /// No gamepad is connected.
    NoControllers,
    /// The capture loop is not there.
    NotListening,
    /// A recording is running already.
    AlreadyRecording,
}

impl StartRecordingError {
    /// The error in words.
    pub fn message(&self) -> (text: String)
        ensures
            text@ == (match self {
                StartRecordingError::NoControllers => "No controllers connected!"@,
                StartRecordingError::NotListening => "The event loop is not running!"@,
                StartRecordingError::AlreadyRecording => "Already recording!"@,
            }),
    {
        match self {
            StartRecordingError::NoControllers => String::from_str("No controllers connected!"),
            StartRecordingError::NotListening => String::from_str("The event loop is not running!"),
            StartRecordingError::AlreadyRecording => String::from_str("Already recording!"),
        }
    }
}

/// What starting a recording gives with `connected` gamepads: with none it
/// is turned down whatever the state; else it needs a loop that listens and
/// does not record yet.
pub open spec fn spec_start_recording(state: ControllerState, connected: usize) -> Result<
    ControllerState,
    StartRecordingError,
> {
    if connected == 0 {
        Err(StartRecordingError::NoControllers)
    } else {
        match state {
            ControllerState::Idle => Err(StartRecordingError::NotListening),
            ControllerState::Listening => Ok(ControllerState::Recording),
            ControllerState::Recording => Err(StartRecordingError::AlreadyRecording),
        }
    }
}

/// The recording controller as the user interface holds it: it says whether
/// the capture loop is there and whether it records, and changes only by the
/// four transitions below.
#[derive(Clone, Copy, Debug, PartialEq, Eq, Structural)]
pub struct GilrsEventLoop {
    state: ControllerState,
}

impl GilrsEventLoop {
    /// Where the controller stands.
    pub closed spec fn spec_state(&self) -> ControllerState {
        self.state
    }

    /// The loop is running in every state but `Idle`.
    pub open spec fn spec_is_running(&self) -> bool {
        self.spec_state() != ControllerState::Idle
    }

    /// Whether a recording is running.
    pub open spec fn spec_is_recording(&self) -> bool {
        self.spec_state() == ControllerState::Recording
    }

    /// A controller with no loop.
    pub fn new() -> (controller: GilrsEventLoop)
        ensures
            controller.spec_state() == ControllerState::Idle,
    {
        GilrsEventLoop { state: ControllerState::Idle }
    }

    #[verifier::when_used_as_spec(spec_state)]
    pub fn state(&self) -> (state: ControllerState)
        ensures
            state == self.spec_state(),
    {
        self.state
    }

    /// Starts the loop. Where there is a loop already, nothing changes and
    /// the call fails; else the loop listens from now on, and the caller
    /// brings it to life.
    pub fn listen_for_events(&mut self) -> (started: Result<(), GilrsEventLoopError>)
        ensures
            old(self).spec_state() == ControllerState::Idle ==> started.is_ok()
                && final(self).spec_state() == ControllerState::Listening,
            old(self).spec_state() != ControllerState::Idle ==> started
                == Err::<(), GilrsEventLoopError>(GilrsEventLoopError::NoLoopHandle)
                && final(self).spec_state() == old(self).spec_state(),
    {
        match self.state {
            ControllerState::Idle => {
                self.state = ControllerState::Listening;
                Ok(())
            },
            _ => Err(GilrsEventLoopError::NoLoopHandle),
        }
    }

    /// Whether the loop is running.
    #[verifier::when_used_as_spec(spec_is_running)]
    pub fn is_running(&self) -> (running: bool)
        ensures
            running == self.spec_is_running(),
    {
        match self.state {
            ControllerState::Idle => false,
            _ => true,
        }
    }

    /// Whether a recording is running.
    #[verifier::when_used_as_spec(spec_is_recording)]
    pub fn is_recording(&self) -> (recording: bool)
        ensures
            recording == self.spec_is_recording(),
    {
        match self.state {
            ControllerState::Recording => true,
            _ => false,
        }
    }

    /// Starts a recording with `connected` gamepads. Where it can start, the
    /// result is the command for the capture loop; where it cannot, nothing
    /// changes and the result says why.
    pub fn start_recording(&mut self, connected: usize) -> (command: Result<
        GELEvent,
        StartRecordingError,
    >)
        ensures
            match spec_start_recording(old(self).spec_state(), connected) {
                Ok(next) => command == Ok::<GELEvent, StartRecordingError>(
                    GELEvent::StartRecording,
                ) && final(self).spec_state() == next,
                Err(e) => command == Err::<GELEvent, StartRecordingError>(e)
                    && final(self).spec_state() == old(self).spec_state(),
            },
    {
        if connected == 0 {
            return Err(StartRecordingError::NoControllers);
        }
        match self.state {
            ControllerState::Idle => Err(StartRecordingError::NotListening),
            ControllerState::Listening => {
                self.state = ControllerState::Recording;
                Ok(GELEvent::StartRecording)
            },
            ControllerState::Recording => Err(StartRecordingError::AlreadyRecording),
        }
    }

    /// Stops the recording. Where one is running, the loop goes on
    /// listening and the result is the command for the capture loop; else
    /// nothing changes and there is no command.
    pub fn stop_recording(&mut self) -> (command: Option<GELEvent>)
        ensures
            old(self).spec_state() == ControllerState::Recording ==> command == Some(
                GELEvent::StopRecording,
            ) && final(self).spec_state() == ControllerState::Listening,
            old(self).spec_state() != ControllerState::Recording ==> command.is_none()
                && final(self).spec_state() == old(self).spec_state(),
    {
        match self.state {
            ControllerState::Recording => {
                self.state = ControllerState::Listening;
                Some(GELEvent::StopRecording)
            },
            _ => None,
        }
    }

    /// Stops the loop, from whatever state. Where it is running, the result
    /// tells the caller to wait for its end, by which every session is
    /// closed; after that there is no loop and no recording. Where there is
    /// no loop, nothing changes.
    pub fn stop_listening(&mut self) -> (wait: bool)
        ensures
            wait == old(self).spec_is_running(),
            final(self).spec_state() == ControllerState::Idle,
    {
        match self.state {
            ControllerState::Idle => false,
            _ => {
                self.state = ControllerState::Idle;
                true
            },
        }
    }
}

impl Default for GilrsEventLoop {
    fn default() -> (controller: GilrsEventLoop)
        ensures
            controller.spec_state() == ControllerState::Idle,
    {
        GilrsEventLoop::new()
    }
}

} // verus!
