//! Gamepad-to-keyboard remapping: the event model, the mapping engine and the
//! decisions of the event loop.
pub mod codes;
pub mod engine;
pub mod event_loop;
pub mod gamepad;
pub mod input;
pub mod keyboard;
pub mod laws;
pub mod linux_codes;
pub mod profile;
pub mod report;
pub mod rules;
pub mod text;
pub mod time;

pub use codes::{axis_and_direction_to_string, value_to_direction, AxisCode, AxisDirection, ButtonCode};
pub use engine::MappingEngine;
pub use event_loop::{EventLoop, LatencyStats, LoopAction, LoopState};
pub use gamepad::{
    capabilities_to_strings, extract_gamepad_info, get_known_vendor_database, identify_gamepad,
    is_excluded_by_name, is_gamepad, ErrorType, GamepadCapability, GamepadInfo, GamepadType,
    InputDetectionResult, InputDeviceError,
};
pub use input::InputEvent;
pub use keyboard::{KeyboardCode, KeyboardEventType, OutputEvent, OutputType};
pub use profile::{Profile, ProfileSettings};
pub use report::write_results;
pub use rules::{Mapping, MappingError, MappingRule, TargetType};
pub use time::TimeAnchor;
