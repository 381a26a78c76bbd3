use xlogger::capture::CaptureLoop;
use xlogger::gilrs_loop::{
    handle_gel_event, handle_gilrs_event, shutdown, ControllerState, GELEvent, GilrsEventLoop,
    GilrsEventLoopError, LoopAction, StartRecordingError,
};
use xlogger::input::{AnalogValue, Axis, Button, RawInputEvent};
use xlogger::notify::{
    connection_notice, ControllerConnectionEvent, ControllerHighlightEvent, GamepadInfo,
};
use xlogger::records::{ControllerButtonEvent, ControllerStickEvent, SessionRecord};
use xlogger::writer::WriterThread;

const SECOND: u64 = 1_000_000_000;

fn analog(value: f32) -> AnalogValue {
    AnalogValue::from_bits(value.to_bits())
}

fn pad(id: usize, name: &str) -> GamepadInfo {
    GamepadInfo { id, name: name.to_string() }
}

fn notice(connected: bool, id: usize, name: &str) -> LoopAction {
    LoopAction::Notify(ControllerHighlightEvent::ConnectionEvent(ControllerConnectionEvent {
        connected,
        controller_id: id,
        gamepad_name: name.to_string(),
    }))
}

fn open(device: usize, prefix: &str, stamp: &str) -> LoopAction {
    LoopAction::OpenSession {
        device,
        button_file: format!("{prefix}buttons_{stamp}.csv"),
        stick_file: format!("{prefix}sticks_{stamp}.csv"),
    }
}

#[test]
fn the_loop_starts_once_and_stops_once() {
    let mut controller = GilrsEventLoop::new();
    assert_eq!(controller.state(), ControllerState::Idle);
    assert!(!controller.is_running());
    assert!(!controller.stop_listening());
    assert_eq!(controller.listen_for_events(), Ok(()));
    assert_eq!(controller.state(), ControllerState::Listening);
    assert!(controller.is_running());
    assert_eq!(controller.listen_for_events(), Err(GilrsEventLoopError::NoLoopHandle));
    assert!(controller.is_running());
    assert!(controller.stop_listening());
    assert!(!controller.is_running());
    assert!(!controller.stop_listening());
    assert_eq!(controller.listen_for_events(), Ok(()));
    assert!(controller.is_running());
    assert_eq!(GilrsEventLoop::default(), GilrsEventLoop::new());
    assert_eq!(GilrsEventLoopError::NoLoopHandle.message(), "no event loop join handle");
}

#[test]
fn recording_needs_a_loop_and_a_gamepad() {
    let mut controller = GilrsEventLoop::new();
    assert_eq!(controller.start_recording(1), Err(StartRecordingError::NotListening));
    assert_eq!(controller.start_recording(0), Err(StartRecordingError::NoControllers));
    assert_eq!(controller.stop_recording(), None);
    assert_eq!(controller.state(), ControllerState::Idle);

    controller.listen_for_events().unwrap();
    assert_eq!(controller.start_recording(0), Err(StartRecordingError::NoControllers));
    assert_eq!(controller.state(), ControllerState::Listening);
    assert!(!controller.is_recording());
    assert_eq!(controller.stop_recording(), None);

    assert_eq!(controller.start_recording(2), Ok(GELEvent::StartRecording));
    assert_eq!(controller.state(), ControllerState::Recording);
    assert!(controller.is_recording());
    assert!(controller.is_running());
    assert_eq!(controller.start_recording(2), Err(StartRecordingError::AlreadyRecording));
    assert_eq!(controller.start_recording(0), Err(StartRecordingError::NoControllers));
    assert_eq!(controller.listen_for_events(), Err(GilrsEventLoopError::NoLoopHandle));
    assert_eq!(controller.state(), ControllerState::Recording);

    assert_eq!(controller.stop_recording(), Some(GELEvent::StopRecording));
    assert_eq!(controller.state(), ControllerState::Listening);
    assert_eq!(controller.start_recording(usize::MAX), Ok(GELEvent::StartRecording));

    assert_eq!(StartRecordingError::NoControllers.message(), "No controllers connected!");
    assert_eq!(StartRecordingError::NotListening.message(), "The event loop is not running!");
    assert_eq!(StartRecordingError::AlreadyRecording.message(), "Already recording!");
}

#[test]
fn stopping_the_loop_ends_the_recording() {
    let mut controller = GilrsEventLoop::new();
    controller.listen_for_events().unwrap();
    controller.start_recording(1).unwrap();
    assert!(controller.stop_listening());
    assert_eq!(controller.state(), ControllerState::Idle);
    assert!(!controller.is_recording());
    assert!(!controller.is_running());

    let mut table = CaptureLoop::new(&vec![pad(0, "pad"), pad(1, "other")]);
    assert!(table.session_opened(0, 100));
    assert!(table.session_opened(1, 100));
    assert_eq!(
        shutdown(&mut table),
        vec![LoopAction::CloseSession { device: 0 }, LoopAction::CloseSession { device: 1 }]
    );
    assert!(!table.is_recording(0));
    assert!(!table.is_recording(1));
}

#[test]
fn the_table_begins_with_the_gamepads_that_are_there() {
    let table = CaptureLoop::new(&vec![pad(0, "Xbox Wireless Controller"), pad(1, "pad")]);
    assert_eq!(table.len(), 2);
    assert!(!table.is_empty());
    assert!(table.contains(0));
    assert!(table.contains(1));
    assert!(!table.contains(2));
    assert_eq!(table.id_at(0), 0);
    assert_eq!(table.id_at(1), 1);
    assert_eq!(table.prefix_at(0), "Xbox_Wireless_Controller_0_");
    assert_eq!(table.prefix_at(1), "pad_1_");
    assert!(!table.is_recording(0));

    let twice = CaptureLoop::new(&vec![pad(4, "old name"), pad(9, "other"), pad(4, "new name")]);
    assert_eq!(twice.len(), 2);
    assert_eq!(twice.id_at(0), 4);
    assert_eq!(twice.prefix_at(0), "new_name_4_");
    assert_eq!(twice.id_at(1), 9);

    let none = CaptureLoop::new(&vec![]);
    assert!(none.is_empty());
    assert_eq!(none.len(), 0);
    assert!(CaptureLoop::empty().is_empty());
}

#[test]
fn recording_with_no_gamepad_does_nothing() {
    let mut table = CaptureLoop::new(&vec![]);
    let actions =
        handle_gel_event(&GELEvent::StartRecording, &vec![], &mut table, "2022-10-28_13-05-09");
    assert_eq!(actions, vec![]);
    assert!(table.is_empty());
    assert!(!table.session_opened(0, 5));
    assert!(!table.is_recording(0));
    let actions = handle_gilrs_event(
        RawInputEvent::ButtonChanged { device: 0, button: Button::South, value: analog(0.0), time: 9 },
        &mut table,
        "pad",
    );
    assert_eq!(
        actions,
        vec![LoopAction::Notify(ControllerHighlightEvent::Unhighlight(0)), LoopAction::RequestRepaint]
    );
}

#[test]
fn recording_opens_a_session_for_every_gamepad() {
    let mut table = CaptureLoop::new(&vec![pad(0, "Xbox Wireless Controller"), pad(3, "pad")]);
    let actions =
        handle_gel_event(&GELEvent::StartRecording, &vec![], &mut table, "2022-10-28_13-05-09");
    assert_eq!(
        actions,
        vec![
            open(0, "Xbox_Wireless_Controller_0_", "2022-10-28_13-05-09"),
            open(3, "pad_3_", "2022-10-28_13-05-09"),
        ]
    );
    assert!(!table.is_recording(0));
    assert!(!table.is_recording(3));
    assert!(table.session_opened(3, 10 * SECOND));
    assert!(table.is_recording(3));
    assert!(!table.is_recording(0));
    assert_eq!(table.prefix_at(1), "pad_3_");
}

#[test]
fn events_reach_the_session_of_their_gamepad() {
    let mut table = CaptureLoop::new(&vec![pad(0, "a"), pad(1, "b")]);
    let start = 10 * SECOND;
    assert!(table.session_opened(1, start));

    let press = RawInputEvent::ButtonChanged {
        device: 1,
        button: Button::South,
        value: analog(1.0),
        time: start + SECOND,
    };
    assert_eq!(
        handle_gilrs_event(press, &mut table, "b"),
        vec![LoopAction::Notify(ControllerHighlightEvent::Highlight(1)), LoopAction::RequestRepaint]
    );
    let release = RawInputEvent::ButtonChanged {
        device: 1,
        button: Button::South,
        value: analog(0.0),
        time: start + SECOND + SECOND / 4,
    };
    assert_eq!(
        handle_gilrs_event(release, &mut table, "b"),
        vec![
            LoopAction::Write {
                device: 1,
                record: SessionRecord::Button(ControllerButtonEvent {
                    press_time: 1_000_000_000,
                    release_time: 1_250_000_000,
                    button: Button::South,
                }),
            },
            LoopAction::Notify(ControllerHighlightEvent::Unhighlight(1)),
            LoopAction::RequestRepaint,
        ]
    );
    let axis = RawInputEvent::AxisChanged {
        device: 1,
        axis: Axis::LeftStickX,
        value: analog(0.5),
        time: start + 2 * SECOND,
    };
    assert_eq!(
        handle_gilrs_event(axis, &mut table, "b"),
        vec![
            LoopAction::Write {
                device: 1,
                record: SessionRecord::Stick(ControllerStickEvent {
                    time: 2_000_000_000,
                    left_x: analog(0.5),
                    left_y: analog(0.0),
                    right_x: analog(0.0),
                    right_y: analog(0.0),
                }),
            },
            LoopAction::Notify(ControllerHighlightEvent::Highlight(1)),
            LoopAction::RequestRepaint,
        ]
    );
    let idle = RawInputEvent::ButtonChanged {
        device: 0,
        button: Button::South,
        value: analog(0.0),
        time: start + 3 * SECOND,
    };
    assert_eq!(
        handle_gilrs_event(idle, &mut table, "a"),
        vec![LoopAction::Notify(ControllerHighlightEvent::Unhighlight(0)), LoopAction::RequestRepaint]
    );
    let other_axis = RawInputEvent::AxisChanged {
        device: 1,
        axis: Axis::DPadX,
        value: analog(0.0),
        time: start + 4 * SECOND,
    };
    assert_eq!(
        handle_gilrs_event(other_axis, &mut table, "b"),
        vec![LoopAction::Notify(ControllerHighlightEvent::Unhighlight(1)), LoopAction::RequestRepaint]
    );
    assert_eq!(
        table.forward(RawInputEvent::ButtonChanged {
            device: 1,
            button: Button::East,
            value: analog(0.0),
            time: start + 5 * SECOND,
        }),
        Some(SessionRecord::Button(ControllerButtonEvent {
            press_time: 5_000_000_000,
            release_time: 5_000_000_000,
            button: Button::East,
        }))
    );
    assert_eq!(
        table.forward(RawInputEvent::ButtonChanged {
            device: 8,
            button: Button::East,
            value: analog(0.0),
            time: start + 5 * SECOND,
        }),
        None
    );
}

#[test]
fn stopping_closes_the_sessions_that_run() {
    let mut table = CaptureLoop::new(&vec![pad(0, "a"), pad(1, "b"), pad(2, "c")]);
    assert!(table.session_opened(2, 100));
    assert!(table.session_opened(0, 100));
    let actions = handle_gel_event(&GELEvent::StopRecording, &vec![], &mut table, "");
    assert_eq!(
        actions,
        vec![LoopAction::CloseSession { device: 0 }, LoopAction::CloseSession { device: 2 }]
    );
    for id in 0..3 {
        assert!(!table.is_recording(id));
        assert!(table.contains(id));
    }
    assert_eq!(handle_gel_event(&GELEvent::StopRecording, &vec![], &mut table, ""), vec![]);
    assert_eq!(table.len(), 3);
}

#[test]
fn the_loop_closes_every_session_when_it_ends() {
    let mut table = CaptureLoop::new(&vec![pad(5, "pad")]);
    assert!(table.session_opened(5, 100));
    let press = RawInputEvent::ButtonChanged {
        device: 5,
        button: Button::North,
        value: analog(1.0),
        time: 150,
    };
    handle_gilrs_event(press, &mut table, "pad");
    assert!(table.is_recording(5));
    assert_eq!(shutdown(&mut table), vec![LoopAction::CloseSession { device: 5 }]);
    assert!(!table.is_recording(5));
    assert_eq!(table.forward(press), None);
    assert_eq!(shutdown(&mut table), vec![]);
    assert_eq!(table.stop_all(), vec![]);
}

#[test]
fn a_new_session_of_a_gamepad_knows_nothing_of_its_last() {
    let mut table = CaptureLoop::new(&vec![pad(0, "pad")]);
    assert!(table.session_opened(0, 100));
    let press = |time| RawInputEvent::ButtonChanged {
        device: 0,
        button: Button::South,
        value: analog(1.0),
        time,
    };
    let release = |time| RawInputEvent::ButtonChanged {
        device: 0,
        button: Button::South,
        value: analog(0.0),
        time,
    };
    assert_eq!(table.forward(press(110)), None);
    assert_eq!(table.forward(RawInputEvent::AxisChanged {
        device: 0,
        axis: Axis::RightStickY,
        value: analog(1.0),
        time: 120,
    }).is_some(), true);
    handle_gel_event(&GELEvent::StopRecording, &vec![], &mut table, "");
    assert!(table.session_opened(0, 1000));
    assert_eq!(
        table.forward(release(1300)),
        Some(SessionRecord::Button(ControllerButtonEvent {
            press_time: 300,
            release_time: 300,
            button: Button::South,
        }))
    );
    assert_eq!(
        table.forward(RawInputEvent::AxisChanged {
            device: 0,
            axis: Axis::LeftStickX,
            value: analog(0.5),
            time: 1400,
        }),
        Some(SessionRecord::Stick(ControllerStickEvent {
            time: 400,
            left_x: analog(0.5),
            left_y: analog(0.0),
            right_x: analog(0.0),
            right_y: analog(0.0),
        }))
    );
    assert_eq!(table.forward(press(1500)), None);
    assert!(table.session_opened(0, 2000));
    assert_eq!(
        table.forward(release(2100)),
        Some(SessionRecord::Button(ControllerButtonEvent {
            press_time: 100,
            release_time: 100,
            button: Button::South,
        }))
    );
}

#[test]
fn gamepads_come_and_go() {
    let mut table = CaptureLoop::empty();
    assert_eq!(
        handle_gilrs_event(RawInputEvent::Connected { device: 2 }, &mut table, "My Pad"),
        vec![notice(true, 2, "My Pad")]
    );
    assert!(table.contains(2));
    assert_eq!(table.prefix_at(0), "My_Pad_2_");
    assert_eq!(
        handle_gilrs_event(RawInputEvent::Connected { device: 7 }, &mut table, "Other"),
        vec![notice(true, 7, "Other")]
    );
    assert_eq!(table.len(), 2);
    assert!(table.session_opened(2, 50));
    assert_eq!(
        handle_gilrs_event(RawInputEvent::Connected { device: 2 }, &mut table, "My Pad II"),
        vec![LoopAction::CloseSession { device: 2 }, notice(true, 2, "My Pad II")]
    );
    assert_eq!(table.len(), 2);
    assert_eq!(table.id_at(0), 2);
    assert_eq!(table.prefix_at(0), "My_Pad_II_2_");
    assert!(!table.is_recording(2));
    assert!(table.session_opened(7, 60));
    assert_eq!(
        handle_gilrs_event(RawInputEvent::Disconnected { device: 7 }, &mut table, "Other"),
        vec![LoopAction::CloseSession { device: 7 }, notice(false, 7, "Other")]
    );
    assert!(!table.contains(7));
    assert_eq!(table.len(), 1);
    assert_eq!(
        handle_gilrs_event(RawInputEvent::Disconnected { device: 7 }, &mut table, "Other"),
        vec![notice(false, 7, "Other")]
    );
    assert_eq!(
        handle_gilrs_event(RawInputEvent::Disconnected { device: 2 }, &mut table, "My Pad II"),
        vec![notice(false, 2, "My Pad II")]
    );
    assert!(table.is_empty());
    assert_eq!(table.connect(1, "a b"), (false, false));
    assert_eq!(table.connect(1, "a b"), (true, false));
    assert!(table.session_opened(1, 5));
    assert_eq!(table.disconnect(1), (true, true));
    assert_eq!(table.disconnect(1), (false, false));
}

#[test]
fn the_user_interface_is_told_of_every_gamepad() {
    let mut table = CaptureLoop::empty();
    let pads = vec![pad(0, "Xbox Wireless Controller"), pad(1, "pad")];
    assert_eq!(
        handle_gel_event(&GELEvent::GetAllControllers, &pads, &mut table, ""),
        vec![notice(true, 0, "Xbox Wireless Controller"), notice(true, 1, "pad")]
    );
    assert!(table.is_empty());
    assert_eq!(handle_gel_event(&GELEvent::GetAllControllers, &vec![], &mut table, ""), vec![]);
    assert_eq!(
        connection_notice(false, 3, "pad"),
        ControllerHighlightEvent::ConnectionEvent(ControllerConnectionEvent {
            connected: false,
            controller_id: 3,
            gamepad_name: "pad".to_string(),
        })
    );
}

#[test]
fn a_recorder_takes_events_only_while_it_runs() {
    let mut writer = WriterThread::new("pad_0_".to_string());
    assert_eq!(writer.file_name_prefix(), "pad_0_");
    assert!(!writer.is_running());
    let release = RawInputEvent::ButtonChanged {
        device: 0,
        button: Button::Start,
        value: analog(0.0),
        time: 30,
    };
    assert_eq!(writer.handle_event(release), None);
    writer.start(10);
    assert!(writer.is_running());
    assert_eq!(
        writer.handle_event(release),
        Some(SessionRecord::Button(ControllerButtonEvent {
            press_time: 20,
            release_time: 20,
            button: Button::Start,
        }))
    );
    writer.stop();
    assert!(!writer.is_running());
    assert_eq!(writer.handle_event(release), None);
    assert_eq!(writer.file_name_prefix(), "pad_0_");
    writer.stop();
    assert!(!writer.is_running());
}
