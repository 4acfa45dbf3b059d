//! Platform-independent identifiers of gamepad buttons and axes.
use vstd::prelude::*;

use crate::text::str_eq;

verus! {

/// A gamepad button, independent of the platform that reported it.
#[derive(Debug, Clone, Copy, PartialEq, Eq, Hash, Structural)]
pub enum ButtonCode {
    South,
    East,
    North,
    West,
    LeftShoulder,
    RightShoulder,
    LeftTrigger,
    RightTrigger,
    Select,
    Start,
    LeftStick,
    RightStick,
    Mode,
    Misc1,
    Paddle1,
    Paddle2,
    Paddle3,
    Paddle4,
    Touchpad,
    Unknown,
}

impl ButtonCode {
    /// Position of the code in the fixed enumeration, below 20.
    pub open spec fn spec_index(self) -> u8 {
        match self {
            ButtonCode::South => 0,
            ButtonCode::East => 1,
            ButtonCode::North => 2,
            ButtonCode::West => 3,
            ButtonCode::LeftShoulder => 4,
            ButtonCode::RightShoulder => 5,
            ButtonCode::LeftTrigger => 6,
            ButtonCode::RightTrigger => 7,
            ButtonCode::Select => 8,
            ButtonCode::Start => 9,
            ButtonCode::LeftStick => 10,
            ButtonCode::RightStick => 11,
            ButtonCode::Mode => 12,
            ButtonCode::Misc1 => 13,
            ButtonCode::Paddle1 => 14,
            ButtonCode::Paddle2 => 15,
            ButtonCode::Paddle3 => 16,
            ButtonCode::Paddle4 => 17,
            ButtonCode::Touchpad => 18,
            ButtonCode::Unknown => 19,
        }
    }

    /// The code at a position of the enumeration.
    pub open spec fn spec_at(i: u8) -> ButtonCode {
        if i == 0 {
            ButtonCode::South
        } else if i == 1 {
            ButtonCode::East
        } else if i == 2 {
            ButtonCode::North
        } else if i == 3 {
            ButtonCode::West
        } else if i == 4 {
            ButtonCode::LeftShoulder
        } else if i == 5 {
            ButtonCode::RightShoulder
        } else if i == 6 {
            ButtonCode::LeftTrigger
        } else if i == 7 {
            ButtonCode::RightTrigger
        } else if i == 8 {
            ButtonCode::Select
        } else if i == 9 {
            ButtonCode::Start
        } else if i == 10 {
            ButtonCode::LeftStick
        } else if i == 11 {
            ButtonCode::RightStick
        } else if i == 12 {
            ButtonCode::Mode
        } else if i == 13 {
            ButtonCode::Misc1
        } else if i == 14 {
            ButtonCode::Paddle1
        } else if i == 15 {
            ButtonCode::Paddle2
        } else if i == 16 {
            ButtonCode::Paddle3
        } else if i == 17 {
            ButtonCode::Paddle4
        } else if i == 18 {
            ButtonCode::Touchpad
        } else {
            ButtonCode::Unknown
        }
    }

    /// The human-readable name of the code.
    pub open spec fn spec_label(self) -> Seq<char> {
        match self {
            ButtonCode::South => "South"@,
            ButtonCode::East => "East"@,
            ButtonCode::North => "North"@,
            ButtonCode::West => "West"@,
            ButtonCode::LeftShoulder => "Left Shoulder"@,
            ButtonCode::RightShoulder => "Right Shoulder"@,
            ButtonCode::LeftTrigger => "Left Trigger"@,
            ButtonCode::RightTrigger => "Right Trigger"@,
            ButtonCode::Select => "Select"@,
            ButtonCode::Start => "Start"@,
            ButtonCode::LeftStick => "Left Stick"@,
            ButtonCode::RightStick => "Right Stick"@,
            ButtonCode::Mode => "Mode"@,
            ButtonCode::Misc1 => "Misc"@,
            ButtonCode::Paddle1 => "Paddle 1"@,
            ButtonCode::Paddle2 => "Paddle 2"@,
            ButtonCode::Paddle3 => "Paddle 3"@,
            ButtonCode::Paddle4 => "Paddle 4"@,
            ButtonCode::Touchpad => "Touchpad"@,
            ButtonCode::Unknown => "Unknown"@,
        }
    }

    /// The code that a name denotes: its label or its compact spelling; any other name gives `Unknown`.
    pub open spec fn spec_from_name(s: Seq<char>) -> ButtonCode {
        if s == "South"@ {
            ButtonCode::South
        } else if s == "East"@ {
            ButtonCode::East
        } else if s == "North"@ {
            ButtonCode::North
        } else if s == "West"@ {
            ButtonCode::West
        } else if s == "Left Shoulder"@ || s == "LeftShoulder"@ {
            ButtonCode::LeftShoulder
        } else if s == "Right Shoulder"@ || s == "RightShoulder"@ {
            ButtonCode::RightShoulder
        } else if s == "Left Trigger"@ || s == "LeftTrigger"@ {
            ButtonCode::LeftTrigger
        } else if s == "Right Trigger"@ || s == "RightTrigger"@ {
            ButtonCode::RightTrigger
        } else if s == "Select"@ {
            ButtonCode::Select
        } else if s == "Start"@ {
            ButtonCode::Start
        } else if s == "Left Stick"@ || s == "LeftStick"@ {
            ButtonCode::LeftStick
        } else if s == "Right Stick"@ || s == "RightStick"@ {
            ButtonCode::RightStick
        } else if s == "Mode"@ {
            ButtonCode::Mode
        } else if s == "Misc"@ || s == "Misc1"@ {
            ButtonCode::Misc1
        } else if s == "Paddle 1"@ || s == "Paddle1"@ {
            ButtonCode::Paddle1
        } else if s == "Paddle 2"@ || s == "Paddle2"@ {
            ButtonCode::Paddle2
        } else if s == "Paddle 3"@ || s == "Paddle3"@ {
            ButtonCode::Paddle3
        } else if s == "Paddle 4"@ || s == "Paddle4"@ {
            ButtonCode::Paddle4
        } else if s == "Touchpad"@ {
            ButtonCode::Touchpad
        } else {
            ButtonCode::Unknown
        }
    }

    pub proof fn lemma_index_round_trip(self)
        ensures
            self.spec_index() < 20,
            Self::spec_at(self.spec_index()) == self,
    {
    }

    pub proof fn lemma_at_round_trip(i: u8)
        requires
            i < 20,
        ensures
            Self::spec_at(i).spec_index() == i,
    {
    }

    /// Position of the code in the fixed enumeration.
    pub fn index(&self) -> (r: u8)
        ensures
            r == self.spec_index(),
    {
        match self {
            ButtonCode::South => 0,
            ButtonCode::East => 1,
            ButtonCode::North => 2,
            ButtonCode::West => 3,
            ButtonCode::LeftShoulder => 4,
            ButtonCode::RightShoulder => 5,
            ButtonCode::LeftTrigger => 6,
            ButtonCode::RightTrigger => 7,
            ButtonCode::Select => 8,
            ButtonCode::Start => 9,
            ButtonCode::LeftStick => 10,
            ButtonCode::RightStick => 11,
            ButtonCode::Mode => 12,
            ButtonCode::Misc1 => 13,
            ButtonCode::Paddle1 => 14,
            ButtonCode::Paddle2 => 15,
            ButtonCode::Paddle3 => 16,
            ButtonCode::Paddle4 => 17,
            ButtonCode::Touchpad => 18,
            ButtonCode::Unknown => 19,
        }
    }

    /// The code at a position of the enumeration.
    pub fn at(i: u8) -> (r: ButtonCode)
        ensures
            r == Self::spec_at(i),
    {
        if i == 0 {
            ButtonCode::South
        } else if i == 1 {
            ButtonCode::East
        } else if i == 2 {
            ButtonCode::North
        } else if i == 3 {
            ButtonCode::West
        } else if i == 4 {
            ButtonCode::LeftShoulder
        } else if i == 5 {
            ButtonCode::RightShoulder
        } else if i == 6 {
            ButtonCode::LeftTrigger
        } else if i == 7 {
            ButtonCode::RightTrigger
        } else if i == 8 {
            ButtonCode::Select
        } else if i == 9 {
            ButtonCode::Start
        } else if i == 10 {
            ButtonCode::LeftStick
        } else if i == 11 {
            ButtonCode::RightStick
        } else if i == 12 {
            ButtonCode::Mode
        } else if i == 13 {
            ButtonCode::Misc1
        } else if i == 14 {
            ButtonCode::Paddle1
        } else if i == 15 {
            ButtonCode::Paddle2
        } else if i == 16 {
            ButtonCode::Paddle3
        } else if i == 17 {
            ButtonCode::Paddle4
        } else if i == 18 {
            ButtonCode::Touchpad
        } else {
            ButtonCode::Unknown
        }
    }

    /// The human-readable name of the code.
    pub fn label(&self) -> (r: &'static str)
        ensures
            r@ == self.spec_label(),
    {
        match self {
            ButtonCode::South => "South",
            ButtonCode::East => "East",
            ButtonCode::North => "North",
            ButtonCode::West => "West",
            ButtonCode::LeftShoulder => "Left Shoulder",
            ButtonCode::RightShoulder => "Right Shoulder",
            ButtonCode::LeftTrigger => "Left Trigger",
            ButtonCode::RightTrigger => "Right Trigger",
            ButtonCode::Select => "Select",
            ButtonCode::Start => "Start",
            ButtonCode::LeftStick => "Left Stick",
            ButtonCode::RightStick => "Right Stick",
            ButtonCode::Mode => "Mode",
            ButtonCode::Misc1 => "Misc",
            ButtonCode::Paddle1 => "Paddle 1",
            ButtonCode::Paddle2 => "Paddle 2",
            ButtonCode::Paddle3 => "Paddle 3",
            ButtonCode::Paddle4 => "Paddle 4",
            ButtonCode::Touchpad => "Touchpad",
            ButtonCode::Unknown => "Unknown",
        }
    }

    /// The human-readable name of the code, as an owned string.
    pub fn to_string(&self) -> (r: String)
        ensures
            r@ == self.spec_label(),
    {
        String::from_str(self.label())
    }

    /// Resolves a name; any other name gives `Unknown`.
    pub fn from_name(s: &str) -> (r: Self)
        ensures
            r == Self::spec_from_name(s@),
    {
        if str_eq(s, "South") {
            ButtonCode::South
        } else if str_eq(s, "East") {
            ButtonCode::East
        } else if str_eq(s, "North") {
            ButtonCode::North
        } else if str_eq(s, "West") {
            ButtonCode::West
        } else if str_eq(s, "Left Shoulder") || str_eq(s, "LeftShoulder") {
            ButtonCode::LeftShoulder
        } else if str_eq(s, "Right Shoulder") || str_eq(s, "RightShoulder") {
            ButtonCode::RightShoulder
        } else if str_eq(s, "Left Trigger") || str_eq(s, "LeftTrigger") {
            ButtonCode::LeftTrigger
        } else if str_eq(s, "Right Trigger") || str_eq(s, "RightTrigger") {
            ButtonCode::RightTrigger
        } else if str_eq(s, "Select") {
            ButtonCode::Select
        } else if str_eq(s, "Start") {
            ButtonCode::Start
        } else if str_eq(s, "Left Stick") || str_eq(s, "LeftStick") {
            ButtonCode::LeftStick
        } else if str_eq(s, "Right Stick") || str_eq(s, "RightStick") {
            ButtonCode::RightStick
        } else if str_eq(s, "Mode") {
            ButtonCode::Mode
        } else if str_eq(s, "Misc") || str_eq(s, "Misc1") {
            ButtonCode::Misc1
        } else if str_eq(s, "Paddle 1") || str_eq(s, "Paddle1") {
            ButtonCode::Paddle1
        } else if str_eq(s, "Paddle 2") || str_eq(s, "Paddle2") {
            ButtonCode::Paddle2
        } else if str_eq(s, "Paddle 3") || str_eq(s, "Paddle3") {
            ButtonCode::Paddle3
        } else if str_eq(s, "Paddle 4") || str_eq(s, "Paddle4") {
            ButtonCode::Paddle4
        } else if str_eq(s, "Touchpad") {
            ButtonCode::Touchpad
        } else {
            ButtonCode::Unknown
        }
    }
}

/// A gamepad axis, independent of the platform that reported it.
#[derive(Debug, Clone, Copy, PartialEq, Eq, Hash, Structural)]
pub enum AxisCode {
    LeftX,
    LeftY,
    RightX,
    RightY,
    LeftTrigger,
    RightTrigger,
    DPadX,
    DPadY,
    Unknown,
}

impl AxisCode {
    /// Position of the code in the fixed enumeration, below 9.
    pub open spec fn spec_index(self) -> u8 {
        match self {
            AxisCode::LeftX => 0,
            AxisCode::LeftY => 1,
            AxisCode::RightX => 2,
            AxisCode::RightY => 3,
            AxisCode::LeftTrigger => 4,
            AxisCode::RightTrigger => 5,
            AxisCode::DPadX => 6,
            AxisCode::DPadY => 7,
            AxisCode::Unknown => 8,
        }
    }

    /// The code at a position of the enumeration.
    pub open spec fn spec_at(i: u8) -> AxisCode {
        if i == 0 {
            AxisCode::LeftX
        } else if i == 1 {
            AxisCode::LeftY
        } else if i == 2 {
            AxisCode::RightX
        } else if i == 3 {
            AxisCode::RightY
        } else if i == 4 {
            AxisCode::LeftTrigger
        } else if i == 5 {
            AxisCode::RightTrigger
        } else if i == 6 {
            AxisCode::DPadX
        } else if i == 7 {
            AxisCode::DPadY
        } else {
            AxisCode::Unknown
        }
    }

    /// The human-readable name of the code.
    pub open spec fn spec_label(self) -> Seq<char> {
        match self {
            AxisCode::LeftX => "Left X"@,
            AxisCode::LeftY => "Left Y"@,
            AxisCode::RightX => "Right X"@,
            AxisCode::RightY => "Right Y"@,
            AxisCode::LeftTrigger => "Left Trigger"@,
            AxisCode::RightTrigger => "Right Trigger"@,
            AxisCode::DPadX => "DPad X"@,
            AxisCode::DPadY => "DPad Y"@,
            AxisCode::Unknown => "Unknown"@,
        }
    }

    /// The code that a name denotes: its label or its compact spelling; any other name gives `Unknown`.
    pub open spec fn spec_from_name(s: Seq<char>) -> AxisCode {
        if s == "Left X"@ || s == "LeftX"@ {
            AxisCode::LeftX
        } else if s == "Left Y"@ || s == "LeftY"@ {
            AxisCode::LeftY
        } else if s == "Right X"@ || s == "RightX"@ {
            AxisCode::RightX
        } else if s == "Right Y"@ || s == "RightY"@ {
            AxisCode::RightY
        } else if s == "Left Trigger"@ || s == "LeftTrigger"@ {
            AxisCode::LeftTrigger
        } else if s == "Right Trigger"@ || s == "RightTrigger"@ {
            AxisCode::RightTrigger
        } else if s == "DPad X"@ || s == "DPadX"@ {
            AxisCode::DPadX
        } else if s == "DPad Y"@ || s == "DPadY"@ {
            AxisCode::DPadY
        } else {
            AxisCode::Unknown
        }
    }

    pub proof fn lemma_index_round_trip(self)
        ensures
            self.spec_index() < 9,
            Self::spec_at(self.spec_index()) == self,
    {
    }

    pub proof fn lemma_at_round_trip(i: u8)
        requires
            i < 9,
        ensures
            Self::spec_at(i).spec_index() == i,
    {
    }

    /// Position of the code in the fixed enumeration.
    pub fn index(&self) -> (r: u8)
        ensures
            r == self.spec_index(),
    {
        match self {
            AxisCode::LeftX => 0,
            AxisCode::LeftY => 1,
            AxisCode::RightX => 2,
            AxisCode::RightY => 3,
            AxisCode::LeftTrigger => 4,
            AxisCode::RightTrigger => 5,
            AxisCode::DPadX => 6,
            AxisCode::DPadY => 7,
            AxisCode::Unknown => 8,
        }
    }

    /// The code at a position of the enumeration.
    pub fn at(i: u8) -> (r: AxisCode)
        ensures
            r == Self::spec_at(i),
    {
        if i == 0 {
            AxisCode::LeftX
        } else if i == 1 {
            AxisCode::LeftY
        } else if i == 2 {
            AxisCode::RightX
        } else if i == 3 {
            AxisCode::RightY
        } else if i == 4 {
            AxisCode::LeftTrigger
        } else if i == 5 {
            AxisCode::RightTrigger
        } else if i == 6 {
            AxisCode::DPadX
        } else if i == 7 {
            AxisCode::DPadY
        } else {
            AxisCode::Unknown
        }
    }

    /// The human-readable name of the code.
    pub fn label(&self) -> (r: &'static str)
        ensures
            r@ == self.spec_label(),
    {
        match self {
            AxisCode::LeftX => "Left X",
            AxisCode::LeftY => "Left Y",
            AxisCode::RightX => "Right X",
            AxisCode::RightY => "Right Y",
            AxisCode::LeftTrigger => "Left Trigger",
            AxisCode::RightTrigger => "Right Trigger",
            AxisCode::DPadX => "DPad X",
            AxisCode::DPadY => "DPad Y",
            AxisCode::Unknown => "Unknown",
        }
    }

    /// The human-readable name of the code, as an owned string.
    pub fn to_string(&self) -> (r: String)
        ensures
            r@ == self.spec_label(),
    {
        String::from_str(self.label())
    }

    /// Resolves a name; any other name gives `Unknown`.
    pub fn from_name(s: &str) -> (r: Self)
        ensures
            r == Self::spec_from_name(s@),
    {
        if str_eq(s, "Left X") || str_eq(s, "LeftX") {
            AxisCode::LeftX
        } else if str_eq(s, "Left Y") || str_eq(s, "LeftY") {
            AxisCode::LeftY
        } else if str_eq(s, "Right X") || str_eq(s, "RightX") {
            AxisCode::RightX
        } else if str_eq(s, "Right Y") || str_eq(s, "RightY") {
            AxisCode::RightY
        } else if str_eq(s, "Left Trigger") || str_eq(s, "LeftTrigger") {
            AxisCode::LeftTrigger
        } else if str_eq(s, "Right Trigger") || str_eq(s, "RightTrigger") {
            AxisCode::RightTrigger
        } else if str_eq(s, "DPad X") || str_eq(s, "DPadX") {
            AxisCode::DPadX
        } else if str_eq(s, "DPad Y") || str_eq(s, "DPadY") {
            AxisCode::DPadY
        } else {
            AxisCode::Unknown
        }
    }
}
/// Which side of zero an axis sample lies on.
#[derive(Debug, Clone, Copy, PartialEq, Eq, Hash, Structural)]
pub enum AxisDirection {
    /// Above zero (down, right).
    Positive,
    /// Below zero (up, left).
    Negative,
}

impl AxisDirection {
    pub open spec fn spec_index(self) -> u8 {
        match self {
            AxisDirection::Positive => 0,
            AxisDirection::Negative => 1,
        }
    }

    pub open spec fn spec_label(self) -> Seq<char> {
        match self {
            AxisDirection::Positive => "Positive"@,
            AxisDirection::Negative => "Negative"@,
        }
    }

    /// The direction a name denotes, if any.
    pub open spec fn spec_from_name(s: Seq<char>) -> Option<AxisDirection> {
        if s == "Positive"@ {
            Some(AxisDirection::Positive)
        } else if s == "Negative"@ {
            Some(AxisDirection::Negative)
        } else {
            None
        }
    }

    pub fn index(&self) -> (r: u8)
        ensures
            r == self.spec_index(),
    {
        match self {
            AxisDirection::Positive => 0,
            AxisDirection::Negative => 1,
        }
    }

    pub fn label(&self) -> (r: &'static str)
        ensures
            r@ == self.spec_label(),
    {
        match self {
            AxisDirection::Positive => "Positive",
            AxisDirection::Negative => "Negative",
        }
    }

    pub fn to_string(&self) -> (r: String)
        ensures
            r@ == self.spec_label(),
    {
        String::from_str(self.label())
    }

    /// Resolves a direction name; `None` for anything but `Positive` and `Negative`.
    pub fn from_name(s: &str) -> (r: Option<AxisDirection>)
        ensures
            r == Self::spec_from_name(s@),
    {
        if str_eq(s, "Positive") {
            Some(AxisDirection::Positive)
        } else if str_eq(s, "Negative") {
            Some(AxisDirection::Negative)
        } else {
            None
        }
    }
}

/// The direction of a raw axis value: above zero is positive, below is negative,
/// zero itself is neutral.
pub open spec fn direction_of(value: int) -> Option<AxisDirection> {
    if value > 0 {
        Some(AxisDirection::Positive)
    } else if value < 0 {
        Some(AxisDirection::Negative)
    } else {
        None
    }
}

/// The direction of a raw axis value (see `direction_of`).
pub fn value_to_direction(value: i32) -> (r: Option<AxisDirection>)
    ensures
        r == direction_of(value as int),
{
    if value > 0 {
        Some(AxisDirection::Positive)
    } else if value < 0 {
        Some(AxisDirection::Negative)
    } else {
        None
    }
}

/// A readable name for one direction of an axis ("DPad Up", "Left X Right").
pub open spec fn axis_direction_label(axis: AxisCode, direction: AxisDirection) -> Seq<char> {
    match axis {
        AxisCode::DPadX => match direction {
            AxisDirection::Negative => "DPad Left"@,
            AxisDirection::Positive => "DPad Right"@,
        },
        AxisCode::DPadY => match direction {
            AxisDirection::Negative => "DPad Up"@,
            AxisDirection::Positive => "DPad Down"@,
        },
        AxisCode::LeftX | AxisCode::RightX => match direction {
            AxisDirection::Negative => axis.spec_label() + " Left"@,
            AxisDirection::Positive => axis.spec_label() + " Right"@,
        },
        AxisCode::LeftY | AxisCode::RightY => match direction {
            AxisDirection::Negative => axis.spec_label() + " Up"@,
            AxisDirection::Positive => axis.spec_label() + " Down"@,
        },
        _ => axis.spec_label(),
    }
}

/// A readable name for one direction of an axis: the D-pad's four arrows by name,
/// the sticks' axes with Left/Right or Up/Down appended, any other axis by its own name.
pub fn axis_and_direction_to_string(axis_code: AxisCode, direction: AxisDirection) -> (r: String)
    ensures
        r@ == axis_direction_label(axis_code, direction),
{
    match axis_code {
        AxisCode::DPadX => match direction {
            AxisDirection::Negative => String::from_str("DPad Left"),
            AxisDirection::Positive => String::from_str("DPad Right"),
        },
        AxisCode::DPadY => match direction {
            AxisDirection::Negative => String::from_str("DPad Up"),
            AxisDirection::Positive => String::from_str("DPad Down"),
        },
        AxisCode::LeftX | AxisCode::RightX => match direction {
            AxisDirection::Negative => axis_code.to_string().concat(" Left"),
            AxisDirection::Positive => axis_code.to_string().concat(" Right"),
        },
        AxisCode::LeftY | AxisCode::RightY => match direction {
            AxisDirection::Negative => axis_code.to_string().concat(" Up"),
            AxisDirection::Positive => axis_code.to_string().concat(" Down"),
        },
        _ => axis_code.to_string(),
    }
}

} // verus!
