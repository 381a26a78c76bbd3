use xlogger::controller_type::{button_name, ControllerType};
use xlogger::error_window::ErrorWindow;
use xlogger::input::Button;
use xlogger::naming::{
    decimal, make_controller_name_prefix, replace_char, session_file_names, session_stamp,
};
use xlogger::stateful_text::{StatefulText, TextColor, TextState};

#[test]
fn numbers_are_written_in_base_ten() {
    assert_eq!(decimal(0), "0");
    assert_eq!(decimal(7), "7");
    assert_eq!(decimal(10), "10");
    assert_eq!(decimal(409), "409");
    assert_eq!(decimal(1234567890), "1234567890");
    assert_eq!(decimal(usize::MAX), format!("{}", usize::MAX));
    for n in 0..2000usize {
        assert_eq!(decimal(n), format!("{}", n));
    }
}

#[test]
fn every_occurrence_is_exchanged() {
    assert_eq!(replace_char("a b  c", ' ', "_"), "a_b__c");
    assert_eq!(replace_char("a b  c", ' ', "--"), "a--b----c");
    assert_eq!(replace_char("a b  c", ' ', ""), "abc");
    assert_eq!(replace_char("abc", ' ', "_"), "abc");
    assert_eq!(replace_char("", ' ', "_"), "");
    assert_eq!(replace_char("   ", ' ', "_"), "___");
    assert_eq!(replace_char("na\u{ef}ve caf\u{e9}", '\u{e9}', "e"), "na\u{ef}ve cafe");
    for text in ["Xbox Wireless Controller", " lead", "trail ", "\u{1f3ae} pad \u{1f3ae}"] {
        assert_eq!(replace_char(text, ' ', "_"), text.replace(' ', "_"));
    }
}

#[test]
fn prefix_has_no_blank() {
    assert_eq!(make_controller_name_prefix("Xbox Wireless Controller", 0), "Xbox_Wireless_Controller_0_");
    assert_eq!(make_controller_name_prefix("PS4  Controller ", 12), "PS4__Controller__12_");
    assert_eq!(make_controller_name_prefix("pad", 3), "pad_3_");
    assert_eq!(make_controller_name_prefix("", 0), "_0_");
    assert_eq!(make_controller_name_prefix(" ", 1), "__1_");
    assert_eq!(make_controller_name_prefix("Contr\u{f4}leur sans fil", 2), "Contr\u{f4}leur_sans_fil_2_");
}

#[test]
fn file_names_are_made_of_prefix_kind_and_stamp() {
    let (buttons, sticks) = session_file_names("pad_3_", "2022-10-28_13-05-09");
    assert_eq!(buttons, "pad_3_buttons_2022-10-28_13-05-09.csv");
    assert_eq!(sticks, "pad_3_sticks_2022-10-28_13-05-09.csv");
    let (buttons, sticks) = session_file_names("", "");
    assert_eq!(buttons, "buttons_.csv");
    assert_eq!(sticks, "sticks_.csv");
}

#[test]
fn stamps_sort_as_their_moments_do() {
    assert_eq!(session_stamp(0), Some("1970-01-01_00-00-00".to_string()));
    assert_eq!(session_stamp(1_666_962_309), Some("2022-10-28_13-05-09".to_string()));
    assert_eq!(session_stamp(86_399), Some("1970-01-01_23-59-59".to_string()));
    assert_eq!(session_stamp(-1), Some("1969-12-31_23-59-59".to_string()));
    let earlier = session_stamp(1_666_962_309).unwrap();
    let later = session_stamp(1_666_962_310).unwrap();
    assert!(earlier < later);
    assert_eq!(session_stamp(0), session_stamp(0));
}

#[test]
fn a_moment_out_of_the_calendar_has_no_stamp() {
    assert_eq!(session_stamp(i64::MAX), None);
    assert_eq!(session_stamp(i64::MIN), None);
}

#[test]
fn buttons_have_their_own_names() {
    assert_eq!(button_name(Button::South), "South");
    assert_eq!(button_name(Button::LeftTrigger2), "LeftTrigger2");
    assert_eq!(button_name(Button::DPadRight), "DPadRight");
    assert_eq!(button_name(Button::Unknown), "Unknown");
    let all = [
        (Button::South, "South"),
        (Button::East, "East"),
        (Button::North, "North"),
        (Button::West, "West"),
        (Button::C, "C"),
        (Button::Z, "Z"),
        (Button::LeftTrigger, "LeftTrigger"),
        (Button::LeftTrigger2, "LeftTrigger2"),
        (Button::RightTrigger, "RightTrigger"),
        (Button::RightTrigger2, "RightTrigger2"),
        (Button::Select, "Select"),
        (Button::Start, "Start"),
        (Button::Mode, "Mode"),
        (Button::LeftThumb, "LeftThumb"),
        (Button::RightThumb, "RightThumb"),
        (Button::DPadUp, "DPadUp"),
        (Button::DPadDown, "DPadDown"),
        (Button::DPadLeft, "DPadLeft"),
        (Button::DPadRight, "DPadRight"),
        (Button::Unknown, "Unknown"),
    ];
    for (button, name) in all {
        assert_eq!(button_name(button), name);
        assert_eq!(format!("{:?}", button), name);
        assert_eq!(ControllerType::Default.get_button_name(button), name);
    }
}

#[test]
fn makers_name_their_buttons() {
    let xbox = [
        (Button::South, "A"),
        (Button::East, "B"),
        (Button::North, "Y"),
        (Button::West, "X"),
        (Button::LeftTrigger, "LB"),
        (Button::LeftTrigger2, "LT"),
        (Button::RightTrigger, "RB"),
        (Button::RightTrigger2, "RT"),
        (Button::LeftThumb, "LS"),
        (Button::RightThumb, "RS"),
        (Button::Select, "Select"),
        (Button::DPadUp, "DPadUp"),
        (Button::C, "C"),
    ];
    for (button, name) in xbox {
        assert_eq!(ControllerType::Xbox.get_button_name(button), name);
    }
    let playstation = [
        (Button::South, "X"),
        (Button::East, "O"),
        (Button::North, "Triangle"),
        (Button::West, "Square"),
        (Button::LeftTrigger, "L1"),
        (Button::LeftTrigger2, "L2"),
        (Button::RightTrigger, "R1"),
        (Button::RightTrigger2, "R2"),
        (Button::LeftThumb, "LS"),
        (Button::RightThumb, "RS"),
        (Button::Start, "Start"),
        (Button::Mode, "Mode"),
        (Button::Unknown, "Unknown"),
    ];
    for (button, name) in playstation {
        assert_eq!(ControllerType::PlayStation.get_button_name(button), name);
    }
}

#[test]
fn makers_are_offered_in_order() {
    assert_eq!(
        ControllerType::all(),
        vec![ControllerType::Default, ControllerType::Xbox, ControllerType::PlayStation]
    );
    assert_eq!(ControllerType::default(), ControllerType::Default);
    assert_eq!(ControllerType::Default.name(), "Default");
    assert_eq!(ControllerType::Xbox.name(), "Xbox");
    assert_eq!(ControllerType::PlayStation.name(), "PlayStation");
}

#[test]
fn text_is_shown_in_the_colour_of_its_state() {
    assert_eq!(TextState::default(), TextState::Default);
    assert_eq!(TextState::Success.color(), TextColor::Green);
    assert_eq!(TextState::Error.color(), TextColor::Red);
    assert_eq!(TextState::Warning.color(), TextColor::Yellow);
    assert_eq!(TextState::Default.color(), TextColor::Gray);
    let text = StatefulText::new("Saved!".to_string(), TextState::Success);
    assert_eq!(text.text, "Saved!");
    assert_eq!(text.state, TextState::Success);
    assert_eq!(text.color(), TextColor::Green);
    let plain = StatefulText::default();
    assert_eq!(plain.text, "");
    assert_eq!(plain.state, TextState::Default);
    assert_eq!(plain.color(), TextColor::Gray);
}

#[test]
fn error_window_keeps_its_error() {
    let window = ErrorWindow::new("disk full".to_string());
    assert_eq!(window.error(), "disk full");
    let line = window.text("disk full");
    assert_eq!(line.text, "An error occurred: disk full");
    assert_eq!(line.state, TextState::Error);
    assert_eq!(line.color(), TextColor::Red);
    let number = ErrorWindow::new(17u32);
    assert_eq!(*number.error(), 17);
}
