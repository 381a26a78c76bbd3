//! The names of the buttons, as the makers of gamepads print them.

use crate::input::Button;
use vstd::prelude::*;

verus! {

/// The button's own name.
pub open spec fn spec_button_name(button: Button) -> Seq<char> {
    match button {
        Button::South => "South"@,
        Button::East => "East"@,
        Button::North => "North"@,
        Button::West => "West"@,
        Button::C => "C"@,
        Button::Z => "Z"@,
        Button::LeftTrigger => "LeftTrigger"@,
        Button::LeftTrigger2 => "LeftTrigger2"@,
        Button::RightTrigger => "RightTrigger"@,
        Button::RightTrigger2 => "RightTrigger2"@,
        Button::Select => "Select"@,
        Button::Start => "Start"@,
        Button::Mode => "Mode"@,
        Button::LeftThumb => "LeftThumb"@,
        Button::RightThumb => "RightThumb"@,
        Button::DPadUp => "DPadUp"@,
        Button::DPadDown => "DPadDown"@,
        Button::DPadLeft => "DPadLeft"@,
        Button::DPadRight => "DPadRight"@,
        Button::Unknown => "Unknown"@,
    }
}

/// The button's own name.
pub fn button_name(button: Button) -> (name: String)
    ensures
        name@ == spec_button_name(button),
{
    match button {
        Button::South => String::from_str("South"),
        Button::East => String::from_str("East"),
        Button::North => String::from_str("North"),
        Button::West => String::from_str("West"),
        Button::C => String::from_str("C"),
        Button::Z => String::from_str("Z"),
        Button::LeftTrigger => String::from_str("LeftTrigger"),
        Button::LeftTrigger2 => String::from_str("LeftTrigger2"),
        Button::RightTrigger => String::from_str("RightTrigger"),
        Button::RightTrigger2 => String::from_str("RightTrigger2"),
        Button::Select => String::from_str("Select"),
        Button::Start => String::from_str("Start"),
        Button::Mode => String::from_str("Mode"),
        Button::LeftThumb => String::from_str("LeftThumb"),
        Button::RightThumb => String::from_str("RightThumb"),
        Button::DPadUp => String::from_str("DPadUp"),
        Button::DPadDown => String::from_str("DPadDown"),
        Button::DPadLeft => String::from_str("DPadLeft"),
        Button::DPadRight => String::from_str("DPadRight"),
        Button::Unknown => String::from_str("Unknown"),
    }
}

/// The maker whose names the buttons are shown under.
#[derive(Clone, Copy, Debug, PartialEq, Eq, Structural)]
pub enum ControllerType {
    Default,
    Xbox,
    PlayStation,
}

impl Default for ControllerType {
    fn default() -> (kind: ControllerType)
        ensures
            kind == ControllerType::Default,
    {
        ControllerType::Default
    }
}

/// What an Xbox gamepad calls the button: the four action buttons, the
/// bumpers, the triggers and the two sticks have names of their own, every
/// other button keeps its own name.
pub open spec fn spec_xbox_button(button: Button) -> Seq<char> {
    match button {
        Button::South => "A"@,
        Button::East => "B"@,
        Button::North => "Y"@,
        Button::West => "X"@,
        Button::LeftTrigger => "LB"@,
        Button::LeftTrigger2 => "LT"@,
        Button::RightTrigger => "RB"@,
        Button::RightTrigger2 => "RT"@,
        Button::LeftThumb => "LS"@,
        Button::RightThumb => "RS"@,
        _ => spec_button_name(button),
    }
}

/// What a PlayStation gamepad calls the button: the four action buttons, the
/// bumpers, the triggers and the two sticks have names of their own, every
/// other button keeps its own name.
pub open spec fn spec_playstation_button(button: Button) -> Seq<char> {
    match button {
        Button::South => "X"@,
        Button::East => "O"@,
        Button::North => "Triangle"@,
        Button::West => "Square"@,
        Button::LeftTrigger => "L1"@,
        Button::LeftTrigger2 => "L2"@,
        Button::RightTrigger => "R1"@,
        Button::RightTrigger2 => "R2"@,
        Button::LeftThumb => "LS"@,
        Button::RightThumb => "RS"@,
        _ => spec_button_name(button),
    }
}

fn get_xbox_button(button: Button) -> (name: String)
    ensures
        name@ == spec_xbox_button(button),
{
    match button {
        Button::South => String::from_str("A"),
        Button::East => String::from_str("B"),
        Button::North => String::from_str("Y"),
        Button::West => String::from_str("X"),
        Button::LeftTrigger => String::from_str("LB"),
        Button::LeftTrigger2 => String::from_str("LT"),
        Button::RightTrigger => String::from_str("RB"),
        Button::RightTrigger2 => String::from_str("RT"),
        Button::LeftThumb => String::from_str("LS"),
        Button::RightThumb => String::from_str("RS"),
        _ => button_name(button),
    }
}

fn get_playstation_button(button: Button) -> (name: String)
    ensures
        name@ == spec_playstation_button(button),
{
    match button {
        Button::South => String::from_str("X"),
        Button::East => String::from_str("O"),
        Button::North => String::from_str("Triangle"),
        Button::West => String::from_str("Square"),
        Button::LeftTrigger => String::from_str("L1"),
        Button::LeftTrigger2 => String::from_str("L2"),
        Button::RightTrigger => String::from_str("R1"),
        Button::RightTrigger2 => String::from_str("R2"),
        Button::LeftThumb => String::from_str("LS"),
        Button::RightThumb => String::from_str("RS"),
        _ => button_name(button),
    }
}

impl ControllerType {
    /// The name of `button` on a gamepad of this maker.
    pub open spec fn spec_get_button_name(self, button: Button) -> Seq<char> {
        match self {
            ControllerType::Default => spec_button_name(button),
            ControllerType::Xbox => spec_xbox_button(button),
            ControllerType::PlayStation => spec_playstation_button(button),
        }
    }

    /// Returns the name of the button based on its `ControllerType`.
    pub fn get_button_name(&self, button: Button) -> (name: String)
        ensures
            name@ == self.spec_get_button_name(button),
    {
        match self {
            ControllerType::Default => button_name(button),
            ControllerType::Xbox => get_xbox_button(button),
            ControllerType::PlayStation => get_playstation_button(button),
        }
    }

    /// The maker's name.
    pub fn name(&self) -> (name: String)
        ensures
            name@ == (match self {
                ControllerType::Default => "Default"@,
                ControllerType::Xbox => "Xbox"@,
                ControllerType::PlayStation => "PlayStation"@,
            }),
    {
        match self {
            ControllerType::Default => String::from_str("Default"),
            ControllerType::Xbox => String::from_str("Xbox"),
            ControllerType::PlayStation => String::from_str("PlayStation"),
        }
    }

    /// Every maker, in the order in which they are offered.
    pub fn all() -> (kinds: Vec<ControllerType>)
        ensures
            kinds@ == seq![
                ControllerType::Default,
                ControllerType::Xbox,
                ControllerType::PlayStation,
            ],
    {
        let mut kinds: Vec<ControllerType> = Vec::new();
        kinds.push(ControllerType::Default);
        kinds.push(ControllerType::Xbox);
        kinds.push(ControllerType::PlayStation);
        assert(kinds@ =~= seq![
            ControllerType::Default,
            ControllerType::Xbox,
            ControllerType::PlayStation,
        ]);
        kinds
    }
}

} // verus!
