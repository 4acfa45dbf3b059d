//! The normalized input event: one button edge, axis sample or frame marker.
use vstd::prelude::*;

use crate::codes::{AxisCode, ButtonCode};
use crate::text::{decimal, decimal_string};

verus! {

#[verifier::external_type_specification]
#[verifier::external_body]
pub struct ExInstant(std::time::Instant);

/// Relies on `Instant::now`: a reading of the monotonic clock. Nothing is promised of its value.
pub assume_specification[ std::time::Instant::now ]() -> std::time::Instant;

/// Raw axis value at rest, for an unsigned 0..=255 analog range.
pub const ANALOG_CENTER: i32 = 128;

/// Half-width of the band around the center that counts as no input.
pub const DEAD_ZONE: i32 = 10;

/// One hardware occurrence, stamped with a monotonic instant.
#[derive(Debug, Clone, Copy)]
pub enum InputEvent {
    Button { code: ButtonCode, pressed: bool, timestamp: std::time::Instant },
    Axis { code: AxisCode, value: i32, timestamp: std::time::Instant },
    Sync { timestamp: std::time::Instant },
}

/// Triggers rest at one end of their range, so no deadzone applies to them.
pub open spec fn is_trigger_axis(code: AxisCode) -> bool {
    code == AxisCode::LeftTrigger || code == AxisCode::RightTrigger
}

/// An axis sample of a non-trigger axis within `DEAD_ZONE` of `ANALOG_CENTER`, inclusive.
pub open spec fn in_deadzone(code: AxisCode, value: int) -> bool {
    !is_trigger_axis(code) && -DEAD_ZONE <= value - ANALOG_CENTER <= DEAD_ZONE
}

impl InputEvent {
    pub open spec fn spec_in_deadzone(self) -> bool {
        match self {
            InputEvent::Axis { code, value, .. } => in_deadzone(code, value as int),
            _ => false,
        }
    }

    pub open spec fn spec_timestamp(self) -> std::time::Instant {
        match self {
            InputEvent::Button { timestamp, .. } => timestamp,
            InputEvent::Axis { timestamp, .. } => timestamp,
            InputEvent::Sync { timestamp } => timestamp,
        }
    }

    pub open spec fn spec_text(self) -> Seq<char> {
        match self {
            InputEvent::Button { code, pressed, .. } => code.spec_label() + if pressed {
                " (pressed)"@
            } else {
                " (released)"@
            },
            InputEvent::Axis { code, value, .. } => code.spec_label() + ": "@ + decimal(
                value as int,
            ),
            InputEvent::Sync { .. } => "Sync"@,
        }
    }

    /// A press of `button_code`, stamped now.
    pub fn button_press(button_code: ButtonCode) -> (r: Self)
        ensures
            r matches InputEvent::Button { code, pressed, .. } && code == button_code && pressed,
    {
        InputEvent::Button { code: button_code, pressed: true, timestamp: std::time::Instant::now() }
    }

    /// A release of `button_code`, stamped now.
    pub fn button_release(button_code: ButtonCode) -> (r: Self)
        ensures
            r matches InputEvent::Button { code, pressed, .. } && code == button_code && !pressed,
    {
        InputEvent::Button {
            code: button_code,
            pressed: false,
            timestamp: std::time::Instant::now(),
        }
    }

    /// A sample `value` of `axis_code`, stamped now.
    pub fn axis_move(axis_code: AxisCode, value: i32) -> (r: Self)
        ensures
            r matches InputEvent::Axis { code, value: v, .. } && code == axis_code && v == value,
    {
        InputEvent::Axis { code: axis_code, value, timestamp: std::time::Instant::now() }
    }

    /// A frame marker, stamped now.
    pub fn sync() -> (r: Self)
        ensures
            r is Sync,
    {
        InputEvent::Sync { timestamp: std::time::Instant::now() }
    }

    /// A press of `button_code` at a given instant.
    pub fn button_press_at(button_code: ButtonCode, timestamp: std::time::Instant) -> (r: Self)
        ensures
            r == (InputEvent::Button { code: button_code, pressed: true, timestamp }),
    {
        InputEvent::Button { code: button_code, pressed: true, timestamp }
    }

    /// A release of `button_code` at a given instant.
    pub fn button_release_at(button_code: ButtonCode, timestamp: std::time::Instant) -> (r: Self)
        ensures
            r == (InputEvent::Button { code: button_code, pressed: false, timestamp }),
    {
        InputEvent::Button { code: button_code, pressed: false, timestamp }
    }

    /// A sample of `axis_code` at a given instant.
    pub fn axis_move_at(axis_code: AxisCode, value: i32, timestamp: std::time::Instant) -> (r:
        Self)
        ensures
            r == (InputEvent::Axis { code: axis_code, value, timestamp }),
    {
        InputEvent::Axis { code: axis_code, value, timestamp }
    }

    /// A frame marker at a given instant.
    pub fn sync_at(timestamp: std::time::Instant) -> (r: Self)
        ensures
            r == (InputEvent::Sync { timestamp }),
    {
        InputEvent::Sync { timestamp }
    }

    /// Whether this is an axis sample of a non-trigger axis within the deadzone
    /// (`|value - 128| <= 10`); button and sync events never are.
    pub fn is_in_deadzone(&self) -> (r: bool)
        ensures
            r == self.spec_in_deadzone(),
    {
        match self {
            InputEvent::Axis { code, value, .. } => {
                if matches!(code, AxisCode::LeftTrigger | AxisCode::RightTrigger) {
                    return false;
                }
                let distance = *value as i64 - ANALOG_CENTER as i64;
                -(DEAD_ZONE as i64) <= distance && distance <= DEAD_ZONE as i64
            },
            _ => false,
        }
    }

    pub fn is_button_pressed(&self) -> (r: bool)
        ensures
            r == (*self matches InputEvent::Button { pressed, .. } && pressed),
    {
        matches!(self, InputEvent::Button { pressed: true, .. })
    }

    pub fn is_button_released(&self) -> (r: bool)
        ensures
            r == (*self matches InputEvent::Button { pressed, .. } && !pressed),
    {
        matches!(self, InputEvent::Button { pressed: false, .. })
    }

    pub fn is_axis_moved(&self) -> (r: bool)
        ensures
            r == self is Axis,
    {
        matches!(self, InputEvent::Axis { .. })
    }

    /// The monotonic instant the event carries.
    pub fn timestamp(&self) -> (r: std::time::Instant)
        ensures
            r == self.spec_timestamp(),
    {
        match self {
            InputEvent::Button { timestamp, .. } => *timestamp,
            InputEvent::Axis { timestamp, .. } => *timestamp,
            InputEvent::Sync { timestamp } => *timestamp,
        }
    }

    /// A one-line description: `South (pressed)`, `Left X: 12345`, `Sync`.
    pub fn to_string(&self) -> (r: String)
        ensures
            r@ == self.spec_text(),
    {
        match self {
            InputEvent::Button { code, pressed, .. } => {
                let mut s = code.to_string();
                if *pressed {
                    s.append(" (pressed)");
                } else {
                    s.append(" (released)");
                }
                s
            },
            InputEvent::Axis { code, value, .. } => {
                let mut s = code.to_string();
                s.append(": ");
                let digits = decimal_string(*value as i128);
                s.append(digits.as_str());
                s
            },
            InputEvent::Sync { .. } => String::from_str("Sync"),
        }
    }
}

} // verus!
