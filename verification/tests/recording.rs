use xlogger::correlator::ButtonCorrelator;
use xlogger::input::{AnalogValue, Axis, Button, RawInputEvent};
use xlogger::records::{ControllerButtonEvent, ControllerStickEvent, SessionRecord};
use xlogger::session::RecordingSession;
use xlogger::sticks::{ControllerStickState, StickTracker};

const SECOND: u64 = 1_000_000_000;

fn analog(value: f32) -> AnalogValue {
    AnalogValue::from_bits(value.to_bits())
}

fn press(button: Button, time: u64) -> RawInputEvent {
    RawInputEvent::ButtonChanged { device: 0, button, value: analog(1.0), time }
}

fn release(button: Button, time: u64) -> RawInputEvent {
    RawInputEvent::ButtonChanged { device: 0, button, value: analog(0.0), time }
}

#[test]
fn zero_is_told_from_every_other_value() {
    for value in [0.0f32, -0.0, 1.0, -1.0, 0.5, 1.0e-40, f32::MIN_POSITIVE, f32::NAN, f32::INFINITY] {
        assert_eq!(analog(value).is_zero(), value == 0.0, "{value}");
    }
    assert!(AnalogValue::zero().is_zero());
    assert_eq!(AnalogValue::zero().to_bits(), 0.0f32.to_bits());
    assert_eq!(analog(0.5).to_bits(), 0x3f00_0000);
}

#[test]
fn button_codes_name_their_buttons() {
    let all = [
        Button::South,
        Button::East,
        Button::North,
        Button::West,
        Button::C,
        Button::Z,
        Button::LeftTrigger,
        Button::LeftTrigger2,
        Button::RightTrigger,
        Button::RightTrigger2,
        Button::Select,
        Button::Start,
        Button::Mode,
        Button::LeftThumb,
        Button::RightThumb,
        Button::DPadUp,
        Button::DPadDown,
        Button::DPadLeft,
        Button::DPadRight,
        Button::Unknown,
    ];
    for (i, button) in all.iter().enumerate() {
        assert_eq!(button.code(), i as u64);
        assert_eq!(Button::from_code(i as u64), *button);
    }
    assert_eq!(Button::from_code(20), Button::Unknown);
    assert_eq!(Button::from_code(u64::MAX), Button::Unknown);
}

#[test]
fn only_stick_axes_are_stick_axes() {
    assert!(Axis::LeftStickX.is_stick());
    assert!(Axis::LeftStickY.is_stick());
    assert!(Axis::RightStickX.is_stick());
    assert!(Axis::RightStickY.is_stick());
    for axis in [Axis::LeftZ, Axis::RightZ, Axis::DPadX, Axis::DPadY, Axis::Unknown] {
        assert!(!axis.is_stick());
    }
}

#[test]
fn press_then_release_gives_one_record() {
    let start = 10 * SECOND;
    let mut session = RecordingSession::new(start);
    assert_eq!(session.handle_event(press(Button::South, start + SECOND)), None);
    assert_eq!(session.pending_press(Button::South), Some(start + SECOND));
    let record = session.handle_event(release(Button::South, start + SECOND + SECOND / 4));
    assert_eq!(
        record,
        Some(SessionRecord::Button(ControllerButtonEvent {
            press_time: 1_000_000_000,
            release_time: 1_250_000_000,
            button: Button::South,
        }))
    );
    assert_eq!(session.pending_press(Button::South), None);
}

#[test]
fn release_without_press_gives_a_record_of_no_length() {
    let start = 10 * SECOND;
    let mut session = RecordingSession::new(start);
    let record = session.handle_event(release(Button::South, start + 2 * SECOND));
    assert_eq!(
        record,
        Some(SessionRecord::Button(ControllerButtonEvent {
            press_time: 2_000_000_000,
            release_time: 2_000_000_000,
            button: Button::South,
        }))
    );
}

#[test]
fn move_of_one_axis_shows_the_others_at_rest() {
    let start = 10 * SECOND;
    let mut session = RecordingSession::new(start);
    let record = session.handle_event(RawInputEvent::AxisChanged {
        device: 0,
        axis: Axis::LeftStickX,
        value: analog(0.5),
        time: start + SECOND / 10,
    });
    assert_eq!(
        record,
        Some(SessionRecord::Stick(ControllerStickEvent {
            time: 100_000_000,
            left_x: analog(0.5),
            left_y: analog(0.0),
            right_x: analog(0.0),
            right_y: analog(0.0),
        }))
    );
}

#[test]
fn only_the_first_press_counts() {
    let mut correlator = ButtonCorrelator::new(0);
    assert!(correlator.is_empty());
    assert_eq!(correlator.observe(Button::East, analog(1.0), 5), None);
    assert_eq!(correlator.observe(Button::East, analog(0.7), 8), None);
    assert_eq!(correlator.observe(Button::East, analog(0.2), 13), None);
    assert_eq!(correlator.pending_press(Button::East), Some(5));
    assert_eq!(correlator.len(), 1);
    assert_eq!(
        correlator.observe(Button::East, analog(0.0), 21),
        Some(ControllerButtonEvent { press_time: 5, release_time: 21, button: Button::East })
    );
    assert!(correlator.is_empty());
    assert_eq!(correlator.pending_press(Button::East), None);
}

#[test]
fn buttons_are_paired_each_on_its_own() {
    let mut correlator = ButtonCorrelator::new(100);
    assert_eq!(correlator.start(), 100);
    assert_eq!(correlator.observe(Button::South, analog(1.0), 110), None);
    assert_eq!(correlator.observe(Button::North, analog(1.0), 120), None);
    assert_eq!(correlator.len(), 2);
    assert_eq!(
        correlator.observe(Button::South, analog(-0.0), 130),
        Some(ControllerButtonEvent { press_time: 10, release_time: 30, button: Button::South })
    );
    assert_eq!(correlator.pending_press(Button::North), Some(120));
    assert_eq!(
        correlator.observe(Button::North, analog(0.0), 150),
        Some(ControllerButtonEvent { press_time: 20, release_time: 50, button: Button::North })
    );
    assert_eq!(correlator.len(), 0);
}

#[test]
fn records_in_order_do_not_end_before_they_begin() {
    let mut correlator = ButtonCorrelator::new(0);
    let mut time = 1;
    for round in 0..50u64 {
        correlator.observe(Button::Start, analog(1.0), time);
        time += round % 7;
        let record = correlator.observe(Button::Start, analog(0.0), time).unwrap();
        assert!(record.is_ordered());
        assert!(record.release_time >= record.press_time);
        assert_eq!(record.held_for(), round % 7);
        time += 3;
    }
}

#[test]
fn a_release_before_its_press_is_written_as_it_came() {
    let mut correlator = ButtonCorrelator::new(0);
    correlator.observe(Button::Mode, analog(1.0), 5 * SECOND);
    let record = correlator.observe(Button::Mode, analog(0.0), 3 * SECOND).unwrap();
    assert_eq!(record.press_time, 5 * SECOND);
    assert_eq!(record.release_time, 3 * SECOND);
    assert!(!record.is_ordered());
    assert_eq!(record.held_for(), 0);
}

#[test]
fn events_from_before_the_session_give_no_record() {
    let mut correlator = ButtonCorrelator::new(100);
    assert_eq!(correlator.observe(Button::Z, analog(1.0), 90), None);
    assert_eq!(correlator.pending_press(Button::Z), Some(90));
    assert_eq!(correlator.observe(Button::Z, analog(0.0), 120), None);
    assert_eq!(correlator.pending_press(Button::Z), None);
    assert_eq!(correlator.observe(Button::Z, analog(0.0), 99), None);
    assert_eq!(
        correlator.observe(Button::Z, analog(0.0), 100),
        Some(ControllerButtonEvent { press_time: 0, release_time: 0, button: Button::Z })
    );

    let mut tracker = StickTracker::new(100);
    assert_eq!(tracker.observe(Axis::RightStickY, analog(-1.0), 99), None);
    assert_eq!(tracker.right().y, analog(-1.0));
    assert_eq!(
        tracker.observe(Axis::LeftStickY, analog(0.25), 100),
        Some(ControllerStickEvent {
            time: 0,
            left_x: analog(0.0),
            left_y: analog(0.25),
            right_x: analog(0.0),
            right_y: analog(-1.0),
        })
    );
}

#[test]
fn each_axis_moves_its_own_coordinate() {
    let mut tracker = StickTracker::new(0);
    assert_eq!(tracker.start(), 0);
    assert_eq!(tracker.left(), ControllerStickState::rest());
    assert_eq!(tracker.right(), ControllerStickState::default());
    let moves = [
        (Axis::LeftStickX, 0.1f32),
        (Axis::LeftStickY, 0.2),
        (Axis::RightStickX, 0.3),
        (Axis::RightStickY, 0.4),
    ];
    let mut expected = [0.0f32; 4];
    for (i, (axis, value)) in moves.iter().enumerate() {
        expected[i] = *value;
        let record = tracker.observe(*axis, analog(*value), i as u64 + 1).unwrap();
        assert_eq!(
            record,
            ControllerStickEvent {
                time: i as u64 + 1,
                left_x: analog(expected[0]),
                left_y: analog(expected[1]),
                right_x: analog(expected[2]),
                right_y: analog(expected[3]),
            }
        );
    }
    for axis in [Axis::LeftZ, Axis::RightZ, Axis::DPadX, Axis::DPadY, Axis::Unknown] {
        assert_eq!(tracker.observe(axis, analog(0.9), 10), None);
    }
    assert_eq!(tracker.left(), ControllerStickState { x: analog(0.1), y: analog(0.2) });
    assert_eq!(tracker.right(), ControllerStickState { x: analog(0.3), y: analog(0.4) });
}

#[test]
fn a_new_session_knows_nothing_of_the_last() {
    let mut session = RecordingSession::new(0);
    session.handle_event(press(Button::West, 5));
    session.handle_event(RawInputEvent::AxisChanged {
        device: 0,
        axis: Axis::RightStickX,
        value: analog(1.0),
        time: 6,
    });
    session.restart(1000);
    assert_eq!(session.start(), 1000);
    assert_eq!(session.pending_press(Button::West), None);
    assert_eq!(
        session.handle_event(release(Button::West, 1500)),
        Some(SessionRecord::Button(ControllerButtonEvent {
            press_time: 500,
            release_time: 500,
            button: Button::West,
        }))
    );
    assert_eq!(
        session.handle_event(RawInputEvent::AxisChanged {
            device: 0,
            axis: Axis::LeftStickY,
            value: analog(-0.5),
            time: 1600,
        }),
        Some(SessionRecord::Stick(ControllerStickEvent {
            time: 600,
            left_x: analog(0.0),
            left_y: analog(-0.5),
            right_x: analog(0.0),
            right_y: analog(0.0),
        }))
    );

    let mut correlator = ButtonCorrelator::new(0);
    correlator.observe(Button::C, analog(1.0), 1);
    correlator.reset(50);
    assert!(correlator.is_empty());
    assert_eq!(correlator.start(), 50);
    let mut tracker = StickTracker::new(0);
    tracker.observe(Axis::LeftStickX, analog(1.0), 1);
    tracker.reset(50);
    assert_eq!(tracker.left(), ControllerStickState::rest());
    assert_eq!(tracker.start(), 50);
}

#[test]
fn a_session_passes_over_gamepads_that_come_and_go() {
    let mut session = RecordingSession::new(0);
    session.handle_event(press(Button::South, 1));
    assert_eq!(session.handle_event(RawInputEvent::Connected { device: 0 }), None);
    assert_eq!(session.handle_event(RawInputEvent::Disconnected { device: 0 }), None);
    assert_eq!(session.pending_press(Button::South), Some(1));
    assert_eq!(RawInputEvent::Connected { device: 7 }.device(), 7);
    assert_eq!(press(Button::South, 1).device(), 0);
}
