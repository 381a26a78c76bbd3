//! What a controller reports: buttons, axes, analog values and raw events.

use vstd::prelude::*;

verus! {

/// A normalized analog reading, held as the bit pattern of an IEEE-754
/// single-precision number.
#[derive(Clone, Copy, Debug, PartialEq, Eq, Structural)]
pub struct AnalogValue {
    pub bits: u32,
}

/// All bits of a single but its sign.
pub const MAGNITUDE_MASK: u32 = 0x7fff_ffffu32;

impl AnalogValue {
    /// Whether the reading compares equal to zero as a number: positive and
    /// negative zero both do, nothing else does.
    pub open spec fn spec_is_zero(self) -> bool {
        self.bits == 0u32 || self.bits == 0x8000_0000u32
    }

    /// The reading whose number is positive zero, the resting value of an axis.
    pub open spec fn spec_zero() -> AnalogValue {
        AnalogValue { bits: 0u32 }
    }

    #[verifier::when_used_as_spec(spec_zero)]
    pub fn zero() -> (v: AnalogValue)
        ensures
            v == Self::spec_zero(),
            v.spec_is_zero(),
    {
        AnalogValue { bits: 0u32 }
    }

    pub fn from_bits(bits: u32) -> (v: AnalogValue)
        ensures
            v.bits == bits,
    {
        AnalogValue { bits }
    }

    pub fn to_bits(self) -> (bits: u32)
        ensures
            bits == self.bits,
    {
        self.bits
    }

    #[verifier::when_used_as_spec(spec_is_zero)]
    pub fn is_zero(self) -> (z: bool)
        ensures
            z == self.spec_is_zero(),
    {
        let bits: u32 = self.bits;
        let magnitude: u32 = bits & MAGNITUDE_MASK;
        assert((bits & 0x7fff_ffffu32 == 0u32) <==> (bits == 0u32 || bits == 0x8000_0000u32))
            by (bit_vector);
        magnitude == 0u32
    }
}

/// A button of a gamepad, by its position on the pad.
#[derive(Clone, Copy, Debug, PartialEq, Eq, Hash, Structural)]
pub enum Button {
    South,
    East,
    North,
    West,
    C,
    Z,
    LeftTrigger,
    LeftTrigger2,
    RightTrigger,
    RightTrigger2,
    Select,
    Start,
    Mode,
    LeftThumb,
    RightThumb,
    DPadUp,
    DPadDown,
    DPadLeft,
    DPadRight,
    Unknown,
}

/// How many buttons there are; every button's code is below it.
pub const BUTTON_COUNT: u64 = 20u64;

impl Button {
    /// A number for each button, in the order of declaration; no two buttons
    /// share one.
    pub open spec fn spec_code(self) -> u64 {
        match self {
            Button::South => 0u64,
            Button::East => 1u64,
            Button::North => 2u64,
            Button::West => 3u64,
            Button::C => 4u64,
            Button::Z => 5u64,
            Button::LeftTrigger => 6u64,
            Button::LeftTrigger2 => 7u64,
            Button::RightTrigger => 8u64,
            Button::RightTrigger2 => 9u64,
            Button::Select => 10u64,
            Button::Start => 11u64,
            Button::Mode => 12u64,
            Button::LeftThumb => 13u64,
            Button::RightThumb => 14u64,
            Button::DPadUp => 15u64,
            Button::DPadDown => 16u64,
            Button::DPadLeft => 17u64,
            Button::DPadRight => 18u64,
            Button::Unknown => 19u64,
        }
    }

    #[verifier::when_used_as_spec(spec_code)]
    pub fn code(self) -> (c: u64)
        ensures
            c == self.spec_code(),
            c < BUTTON_COUNT,
    {
        match self {
            Button::South => 0u64,
            Button::East => 1u64,
            Button::North => 2u64,
            Button::West => 3u64,
            Button::C => 4u64,
            Button::Z => 5u64,
            Button::LeftTrigger => 6u64,
            Button::LeftTrigger2 => 7u64,
            Button::RightTrigger => 8u64,
            Button::RightTrigger2 => 9u64,
            Button::Select => 10u64,
            Button::Start => 11u64,
            Button::Mode => 12u64,
            Button::LeftThumb => 13u64,
            Button::RightThumb => 14u64,
            Button::DPadUp => 15u64,
            Button::DPadDown => 16u64,
            Button::DPadLeft => 17u64,
            Button::DPadRight => 18u64,
            Button::Unknown => 19u64,
        }
    }

    /// The button with the given code; `Unknown` for a number that is no
    /// button's code.
    pub open spec fn spec_from_code(c: u64) -> Button {
        if c == 0 {
            Button::South
        } else if c == 1 {
            Button::East
        } else if c == 2 {
            Button::North
        } else if c == 3 {
            Button::West
        } else if c == 4 {
            Button::C
        } else if c == 5 {
            Button::Z
        } else if c == 6 {
            Button::LeftTrigger
        } else if c == 7 {
            Button::LeftTrigger2
        } else if c == 8 {
            Button::RightTrigger
        } else if c == 9 {
            Button::RightTrigger2
        } else if c == 10 {
            Button::Select
        } else if c == 11 {
            Button::Start
        } else if c == 12 {
            Button::Mode
        } else if c == 13 {
            Button::LeftThumb
        } else if c == 14 {
            Button::RightThumb
        } else if c == 15 {
            Button::DPadUp
        } else if c == 16 {
            Button::DPadDown
        } else if c == 17 {
            Button::DPadLeft
        } else if c == 18 {
            Button::DPadRight
        } else {
            Button::Unknown
        }
    }

    #[verifier::when_used_as_spec(spec_from_code)]
    pub fn from_code(c: u64) -> (b: Button)
        ensures
            b == Self::spec_from_code(c),
            c < BUTTON_COUNT ==> b.spec_code() == c,
    {
        if c == 0 {
            Button::South
        } else if c == 1 {
            Button::East
        } else if c == 2 {
            Button::North
        } else if c == 3 {
            Button::West
        } else if c == 4 {
            Button::C
        } else if c == 5 {
            Button::Z
        } else if c == 6 {
            Button::LeftTrigger
        } else if c == 7 {
            Button::LeftTrigger2
        } else if c == 8 {
            Button::RightTrigger
        } else if c == 9 {
            Button::RightTrigger2
        } else if c == 10 {
            Button::Select
        } else if c == 11 {
            Button::Start
        } else if c == 12 {
            Button::Mode
        } else if c == 13 {
            Button::LeftThumb
        } else if c == 14 {
            Button::RightThumb
        } else if c == 15 {
            Button::DPadUp
        } else if c == 16 {
            Button::DPadDown
        } else if c == 17 {
            Button::DPadLeft
        } else if c == 18 {
            Button::DPadRight
        } else {
            Button::Unknown
        }
    }

    /// A code names the button it came from, so two buttons with one code are
    /// one button.
    pub proof fn lemma_code_round_trip(self)
        ensures
            Self::spec_from_code(self.spec_code()) == self,
            self.spec_code() < BUTTON_COUNT,
    {
    }
}

/// An analog dimension of a gamepad.
#[derive(Clone, Copy, Debug, PartialEq, Eq, Hash, Structural)]
pub enum Axis {
    LeftStickX,
    LeftStickY,
    LeftZ,
    RightStickX,
    RightStickY,
    RightZ,
    DPadX,
    DPadY,
    Unknown,
}

impl Axis {
    /// Whether the axis belongs to one of the two sticks.
    pub open spec fn spec_is_stick(self) -> bool {
        self == Axis::LeftStickX || self == Axis::LeftStickY || self == Axis::RightStickX || self
            == Axis::RightStickY
    }

    #[verifier::when_used_as_spec(spec_is_stick)]
    pub fn is_stick(self) -> (s: bool)
        ensures
            s == self.spec_is_stick(),
    {
        match self {
            Axis::LeftStickX | Axis::LeftStickY | Axis::RightStickX | Axis::RightStickY => true,
            _ => false,
        }
    }
}

/// One event as the input backend reports it. `device` is the identifier that
/// the backend gave the gamepad when it connected; `time` is the instant of
/// the event in nanoseconds on the backend's clock.
#[derive(Clone, Copy, Debug, PartialEq, Eq, Structural)]
pub enum RawInputEvent {
    AxisChanged { device: usize, axis: Axis, value: AnalogValue, time: u64 },
    ButtonChanged { device: usize, button: Button, value: AnalogValue, time: u64 },
    Connected { device: usize },
    Disconnected { device: usize },
}

impl RawInputEvent {
    /// The gamepad that the event came from.
    pub open spec fn spec_device(self) -> usize {
        match self {
            RawInputEvent::AxisChanged { device, .. } => device,
            RawInputEvent::ButtonChanged { device, .. } => device,
            RawInputEvent::Connected { device } => device,
            RawInputEvent::Disconnected { device } => device,
        }
    }

    #[verifier::when_used_as_spec(spec_device)]
    pub fn device(self) -> (d: usize)
        ensures
            d == self.spec_device(),
    {
        match self {
            RawInputEvent::AxisChanged { device, .. } => device,
            RawInputEvent::ButtonChanged { device, .. } => device,
            RawInputEvent::Connected { device } => device,
            RawInputEvent::Disconnected { device } => device,
        }
    }
}

} // verus!
