//! Linux input event codes (the values of `linux/input-event-codes.h`) of gamepad
//! buttons, gamepad axes and keyboard keys, and the library's codes they stand for.
use vstd::prelude::*;

use crate::codes::{AxisCode, ButtonCode};
use crate::keyboard::KeyboardCode;

verus! {

/// The button a key code of a gamepad stands for; `Unknown` for any other code.
pub open spec fn spec_key_to_button_code(code: u16) -> ButtonCode
{
    match code {
        0x130 => ButtonCode::South,
        0x131 => ButtonCode::East,
        0x133 => ButtonCode::North,
        0x134 => ButtonCode::West,
        0x136 => ButtonCode::LeftShoulder,
        0x137 => ButtonCode::RightShoulder,
        0x138 => ButtonCode::LeftTrigger,
        0x139 => ButtonCode::RightTrigger,
        0x13a => ButtonCode::Select,
        0x13b => ButtonCode::Start,
        0x13c => ButtonCode::Mode,
        0x13d => ButtonCode::LeftStick,
        0x13e => ButtonCode::RightStick,
        0x2c0 => ButtonCode::Paddle1,
        0x2c1 => ButtonCode::Paddle2,
        0x2c2 => ButtonCode::Paddle3,
        0x2c3 => ButtonCode::Paddle4,
        _ => ButtonCode::Unknown,
    }
}

/// The button a key code of a gamepad stands for (see `spec_key_to_button_code`).
pub fn key_to_button_code(code: u16) -> (r: ButtonCode)
    ensures
        r == spec_key_to_button_code(code),
{
    match code {
        0x130 => ButtonCode::South,
        0x131 => ButtonCode::East,
        0x133 => ButtonCode::North,
        0x134 => ButtonCode::West,
        0x136 => ButtonCode::LeftShoulder,
        0x137 => ButtonCode::RightShoulder,
        0x138 => ButtonCode::LeftTrigger,
        0x139 => ButtonCode::RightTrigger,
        0x13a => ButtonCode::Select,
        0x13b => ButtonCode::Start,
        0x13c => ButtonCode::Mode,
        0x13d => ButtonCode::LeftStick,
        0x13e => ButtonCode::RightStick,
        0x2c0 => ButtonCode::Paddle1,
        0x2c1 => ButtonCode::Paddle2,
        0x2c2 => ButtonCode::Paddle3,
        0x2c3 => ButtonCode::Paddle4,
        _ => ButtonCode::Unknown,
    }
}

/// The axis an absolute-axis code stands for; `Unknown` for any other code.
pub open spec fn spec_absolute_axis_to_axis_code(code: u16) -> AxisCode
{
    match code {
        0x0 => AxisCode::LeftX,
        0x1 => AxisCode::LeftY,
        0x3 => AxisCode::RightX,
        0x4 => AxisCode::RightY,
        0x2 => AxisCode::LeftTrigger,
        0x5 => AxisCode::RightTrigger,
        0x10 => AxisCode::DPadX,
        0x11 => AxisCode::DPadY,
        _ => AxisCode::Unknown,
    }
}

/// The axis an absolute-axis code stands for (see `spec_absolute_axis_to_axis_code`).
pub fn absolute_axis_to_axis_code(code: u16) -> (r: AxisCode)
    ensures
        r == spec_absolute_axis_to_axis_code(code),
{
    match code {
        0x0 => AxisCode::LeftX,
        0x1 => AxisCode::LeftY,
        0x3 => AxisCode::RightX,
        0x4 => AxisCode::RightY,
        0x2 => AxisCode::LeftTrigger,
        0x5 => AxisCode::RightTrigger,
        0x10 => AxisCode::DPadX,
        0x11 => AxisCode::DPadY,
        _ => AxisCode::Unknown,
    }
}

/// The key code that emits a keyboard key; `Unknown` is the reserved code 0.
pub open spec fn spec_keyboard_code_to_evdev_key(key: KeyboardCode) -> u16 {
    match key {
        KeyboardCode::Reserved => 0,
        KeyboardCode::Escape => 1,
        KeyboardCode::Num1 => 2,
        KeyboardCode::Num2 => 3,
        KeyboardCode::Num3 => 4,
        KeyboardCode::Num4 => 5,
        KeyboardCode::Num5 => 6,
        KeyboardCode::Num6 => 7,
        KeyboardCode::Num7 => 8,
        KeyboardCode::Num8 => 9,
        KeyboardCode::Num9 => 10,
        KeyboardCode::Num0 => 11,
        KeyboardCode::Minus => 12,
        KeyboardCode::Equal => 13,
        KeyboardCode::Backspace => 14,
        KeyboardCode::Tab => 15,
        KeyboardCode::Q => 16,
        KeyboardCode::W => 17,
        KeyboardCode::E => 18,
        KeyboardCode::R => 19,
        KeyboardCode::T => 20,
        KeyboardCode::Y => 21,
        KeyboardCode::U => 22,
        KeyboardCode::I => 23,
        KeyboardCode::O => 24,
        KeyboardCode::P => 25,
        KeyboardCode::LeftBrace => 26,
        KeyboardCode::RightBrace => 27,
        KeyboardCode::Enter => 28,
        KeyboardCode::LeftControl => 29,
        KeyboardCode::A => 30,
        KeyboardCode::S => 31,
        KeyboardCode::D => 32,
        KeyboardCode::F => 33,
        KeyboardCode::G => 34,
        KeyboardCode::H => 35,
        KeyboardCode::J => 36,
        KeyboardCode::K => 37,
        KeyboardCode::L => 38,
        KeyboardCode::Semicolon => 39,
        KeyboardCode::Apostrophe => 40,
        KeyboardCode::Grave => 41,
        KeyboardCode::LeftShift => 42,
        KeyboardCode::Backslash => 43,
        KeyboardCode::Z => 44,
        KeyboardCode::X => 45,
        KeyboardCode::C => 46,
        KeyboardCode::V => 47,
        KeyboardCode::B => 48,
        KeyboardCode::N => 49,
        KeyboardCode::M => 50,
        KeyboardCode::Comma => 51,
        KeyboardCode::Dot => 52,
        KeyboardCode::Slash => 53,
        KeyboardCode::RightShift => 54,
        KeyboardCode::KpAsterisk => 55,
        KeyboardCode::LeftAlt => 56,
        KeyboardCode::Space => 57,
        KeyboardCode::CapsLock => 58,
        KeyboardCode::F1 => 59,
        KeyboardCode::F2 => 60,
        KeyboardCode::F3 => 61,
        KeyboardCode::F4 => 62,
        KeyboardCode::F5 => 63,
        KeyboardCode::F6 => 64,
        KeyboardCode::F7 => 65,
        KeyboardCode::F8 => 66,
        KeyboardCode::F9 => 67,
        KeyboardCode::F10 => 68,
        KeyboardCode::NumLock => 69,
        KeyboardCode::ScrollLock => 70,
        KeyboardCode::Kp7 => 71,
        KeyboardCode::Kp8 => 72,
        KeyboardCode::Kp9 => 73,
        KeyboardCode::KpMinus => 74,
        KeyboardCode::Kp4 => 75,
        KeyboardCode::Kp5 => 76,
        KeyboardCode::Kp6 => 77,
        KeyboardCode::KpPlus => 78,
        KeyboardCode::Kp1 => 79,
        KeyboardCode::Kp2 => 80,
        KeyboardCode::Kp3 => 81,
        KeyboardCode::Kp0 => 82,
        KeyboardCode::KpDot => 83,
        KeyboardCode::KpEnter => 96,
        KeyboardCode::RightControl => 97,
        KeyboardCode::KpSlash => 98,
        KeyboardCode::SysRq => 99,
        KeyboardCode::RightAlt => 100,
        KeyboardCode::LineFeed => 101,
        KeyboardCode::Home => 102,
        KeyboardCode::Up => 103,
        KeyboardCode::PageUp => 104,
        KeyboardCode::Left => 105,
        KeyboardCode::Right => 106,
        KeyboardCode::End => 107,
        KeyboardCode::Down => 108,
        KeyboardCode::PageDown => 109,
        KeyboardCode::Insert => 110,
        KeyboardCode::Delete => 111,
        KeyboardCode::Macro => 112,
        KeyboardCode::Mute => 113,
        KeyboardCode::VolumeDown => 114,
        KeyboardCode::VolumeUp => 115,
        KeyboardCode::Power => 116,
        KeyboardCode::KpEqual => 117,
        KeyboardCode::KpPlusMinus => 118,
        KeyboardCode::Pause => 119,
        KeyboardCode::Scale => 120,
        KeyboardCode::KpComma => 121,
        KeyboardCode::LeftMeta => 125,
        KeyboardCode::RightMeta => 126,
        KeyboardCode::Compose => 127,
        KeyboardCode::Stop => 128,
        KeyboardCode::Again => 129,
        KeyboardCode::Props => 130,
        KeyboardCode::Undo => 131,
        KeyboardCode::Front => 132,
        KeyboardCode::Copy => 133,
        KeyboardCode::Open => 134,
        KeyboardCode::Paste => 135,
        KeyboardCode::Find => 136,
        KeyboardCode::Cut => 137,
        KeyboardCode::Help => 138,
        KeyboardCode::Menu => 139,
        KeyboardCode::Calc => 140,
        KeyboardCode::Setup => 141,
        KeyboardCode::Sleep => 142,
        KeyboardCode::WakeUp => 143,
        KeyboardCode::File => 144,
        KeyboardCode::SendFile => 145,
        KeyboardCode::DeleteFile => 146,
        KeyboardCode::Xfer => 147,
        KeyboardCode::Prog1 => 148,
        KeyboardCode::Prog2 => 149,
        KeyboardCode::Www => 150,
        KeyboardCode::Msdos => 151,
        KeyboardCode::Coffee => 152,
        KeyboardCode::Direction => 153,
        KeyboardCode::RotateDisplay => 153,
        KeyboardCode::CycleWindows => 154,
        KeyboardCode::Mail => 155,
        KeyboardCode::Bookmarks => 156,
        KeyboardCode::Computer => 157,
        KeyboardCode::Back => 158,
        KeyboardCode::Forward => 159,
        KeyboardCode::CloseCd => 160,
        KeyboardCode::EjectCd => 161,
        KeyboardCode::EjectCloseCd => 162,
        KeyboardCode::NextSong => 163,
        KeyboardCode::PlayPause => 164,
        KeyboardCode::PreviousSong => 165,
        KeyboardCode::StopCd => 166,
        KeyboardCode::Record => 167,
        KeyboardCode::Rewind => 168,
        KeyboardCode::Phone => 169,
        KeyboardCode::Iso => 170,
        KeyboardCode::Config => 171,
        KeyboardCode::HomePage => 172,
        KeyboardCode::Refresh => 173,
        KeyboardCode::Exit => 174,
        KeyboardCode::Move => 175,
        KeyboardCode::Edit => 176,
        KeyboardCode::ScrollUp => 177,
        KeyboardCode::ScrollDown => 178,
        KeyboardCode::KpLeftParen => 179,
        KeyboardCode::KpRightParen => 180,
        KeyboardCode::New => 181,
        KeyboardCode::Redo => 182,
        KeyboardCode::F13 => 183,
        KeyboardCode::F14 => 184,
        KeyboardCode::F15 => 185,
        KeyboardCode::F16 => 186,
        KeyboardCode::F17 => 187,
        KeyboardCode::F18 => 188,
        KeyboardCode::F19 => 189,
        KeyboardCode::F20 => 190,
        KeyboardCode::F21 => 191,
        KeyboardCode::F22 => 192,
        KeyboardCode::F23 => 193,
        KeyboardCode::F24 => 194,
        KeyboardCode::PlayCd => 200,
        KeyboardCode::PauseCd => 201,
        KeyboardCode::Prog3 => 202,
        KeyboardCode::Prog4 => 203,
        KeyboardCode::Dashboard => 204,
        KeyboardCode::Suspend => 205,
        KeyboardCode::Close => 206,
        KeyboardCode::Play => 207,
        KeyboardCode::FastForward => 208,
        KeyboardCode::BassBoost => 209,
        KeyboardCode::Print => 210,
        KeyboardCode::Hp => 211,
        KeyboardCode::Camera => 212,
        KeyboardCode::Sound => 213,
        KeyboardCode::Question => 214,
        KeyboardCode::Email => 215,
        KeyboardCode::Chat => 216,
        KeyboardCode::Search => 217,
        KeyboardCode::Connect => 218,
        KeyboardCode::Finance => 219,
        KeyboardCode::Sport => 220,
        KeyboardCode::Shop => 221,
        KeyboardCode::AlterErase => 222,
        KeyboardCode::Cancel => 223,
        KeyboardCode::BrightnessDown => 224,
        KeyboardCode::BrightnessUp => 225,
        KeyboardCode::Media => 226,
        KeyboardCode::SwitchVideoMode => 227,
        KeyboardCode::KbdIllumToggle => 228,
        KeyboardCode::KbdIllumDown => 229,
        KeyboardCode::KbdIllumUp => 230,
        KeyboardCode::Send => 231,
        KeyboardCode::Reply => 232,
        KeyboardCode::ForwardMail => 233,
        KeyboardCode::Save => 234,
        KeyboardCode::Documents => 235,
        KeyboardCode::Battery => 236,
        KeyboardCode::Bluetooth => 237,
        KeyboardCode::Wlan => 238,
        KeyboardCode::Uwb => 239,
        KeyboardCode::Unknown => 0,
    }
}

/// The key code that emits a keyboard key (see `spec_keyboard_code_to_evdev_key`).
pub fn keyboard_code_to_evdev_key(key: KeyboardCode) -> (r: u16)
    ensures
        r == spec_keyboard_code_to_evdev_key(key),
{
    match key {
        KeyboardCode::Reserved => 0,
        KeyboardCode::Escape => 1,
        KeyboardCode::Num1 => 2,
        KeyboardCode::Num2 => 3,
        KeyboardCode::Num3 => 4,
        KeyboardCode::Num4 => 5,
        KeyboardCode::Num5 => 6,
        KeyboardCode::Num6 => 7,
        KeyboardCode::Num7 => 8,
        KeyboardCode::Num8 => 9,
        KeyboardCode::Num9 => 10,
        KeyboardCode::Num0 => 11,
        KeyboardCode::Minus => 12,
        KeyboardCode::Equal => 13,
        KeyboardCode::Backspace => 14,
        KeyboardCode::Tab => 15,
        KeyboardCode::Q => 16,
        KeyboardCode::W => 17,
        KeyboardCode::E => 18,
        KeyboardCode::R => 19,
        KeyboardCode::T => 20,
        KeyboardCode::Y => 21,
        KeyboardCode::U => 22,
        KeyboardCode::I => 23,
        KeyboardCode::O => 24,
        KeyboardCode::P => 25,
        KeyboardCode::LeftBrace => 26,
        KeyboardCode::RightBrace => 27,
        KeyboardCode::Enter => 28,
        KeyboardCode::LeftControl => 29,
        KeyboardCode::A => 30,
        KeyboardCode::S => 31,
        KeyboardCode::D => 32,
        KeyboardCode::F => 33,
        KeyboardCode::G => 34,
        KeyboardCode::H => 35,
        KeyboardCode::J => 36,
        KeyboardCode::K => 37,
        KeyboardCode::L => 38,
        KeyboardCode::Semicolon => 39,
        KeyboardCode::Apostrophe => 40,
        KeyboardCode::Grave => 41,
        KeyboardCode::LeftShift => 42,
        KeyboardCode::Backslash => 43,
        KeyboardCode::Z => 44,
        KeyboardCode::X => 45,
        KeyboardCode::C => 46,
        KeyboardCode::V => 47,
        KeyboardCode::B => 48,
        KeyboardCode::N => 49,
        KeyboardCode::M => 50,
        KeyboardCode::Comma => 51,
        KeyboardCode::Dot => 52,
        KeyboardCode::Slash => 53,
        KeyboardCode::RightShift => 54,
        KeyboardCode::KpAsterisk => 55,
        KeyboardCode::LeftAlt => 56,
        KeyboardCode::Space => 57,
        KeyboardCode::CapsLock => 58,
        KeyboardCode::F1 => 59,
        KeyboardCode::F2 => 60,
        KeyboardCode::F3 => 61,
        KeyboardCode::F4 => 62,
        KeyboardCode::F5 => 63,
        KeyboardCode::F6 => 64,
        KeyboardCode::F7 => 65,
        KeyboardCode::F8 => 66,
        KeyboardCode::F9 => 67,
        KeyboardCode::F10 => 68,
        KeyboardCode::NumLock => 69,
        KeyboardCode::ScrollLock => 70,
        KeyboardCode::Kp7 => 71,
        KeyboardCode::Kp8 => 72,
        KeyboardCode::Kp9 => 73,
        KeyboardCode::KpMinus => 74,
        KeyboardCode::Kp4 => 75,
        KeyboardCode::Kp5 => 76,
        KeyboardCode::Kp6 => 77,
        KeyboardCode::KpPlus => 78,
        KeyboardCode::Kp1 => 79,
        KeyboardCode::Kp2 => 80,
        KeyboardCode::Kp3 => 81,
        KeyboardCode::Kp0 => 82,
        KeyboardCode::KpDot => 83,
        KeyboardCode::KpEnter => 96,
        KeyboardCode::RightControl => 97,
        KeyboardCode::KpSlash => 98,
        KeyboardCode::SysRq => 99,
        KeyboardCode::RightAlt => 100,
        KeyboardCode::LineFeed => 101,
        KeyboardCode::Home => 102,
        KeyboardCode::Up => 103,
        KeyboardCode::PageUp => 104,
        KeyboardCode::Left => 105,
        KeyboardCode::Right => 106,
        KeyboardCode::End => 107,
        KeyboardCode::Down => 108,
        KeyboardCode::PageDown => 109,
        KeyboardCode::Insert => 110,
        KeyboardCode::Delete => 111,
        KeyboardCode::Macro => 112,
        KeyboardCode::Mute => 113,
        KeyboardCode::VolumeDown => 114,
        KeyboardCode::VolumeUp => 115,
        KeyboardCode::Power => 116,
        KeyboardCode::KpEqual => 117,
        KeyboardCode::KpPlusMinus => 118,
        KeyboardCode::Pause => 119,
        KeyboardCode::Scale => 120,
        KeyboardCode::KpComma => 121,
        KeyboardCode::LeftMeta => 125,
        KeyboardCode::RightMeta => 126,
        KeyboardCode::Compose => 127,
        KeyboardCode::Stop => 128,
        KeyboardCode::Again => 129,
        KeyboardCode::Props => 130,
        KeyboardCode::Undo => 131,
        KeyboardCode::Front => 132,
        KeyboardCode::Copy => 133,
        KeyboardCode::Open => 134,
        KeyboardCode::Paste => 135,
        KeyboardCode::Find => 136,
        KeyboardCode::Cut => 137,
        KeyboardCode::Help => 138,
        KeyboardCode::Menu => 139,
        KeyboardCode::Calc => 140,
        KeyboardCode::Setup => 141,
        KeyboardCode::Sleep => 142,
        KeyboardCode::WakeUp => 143,
        KeyboardCode::File => 144,
        KeyboardCode::SendFile => 145,
        KeyboardCode::DeleteFile => 146,
        KeyboardCode::Xfer => 147,
        KeyboardCode::Prog1 => 148,
        KeyboardCode::Prog2 => 149,
        KeyboardCode::Www => 150,
        KeyboardCode::Msdos => 151,
        KeyboardCode::Coffee => 152,
        KeyboardCode::Direction => 153,
        KeyboardCode::RotateDisplay => 153,
        KeyboardCode::CycleWindows => 154,
        KeyboardCode::Mail => 155,
        KeyboardCode::Bookmarks => 156,
        KeyboardCode::Computer => 157,
        KeyboardCode::Back => 158,
        KeyboardCode::Forward => 159,
        KeyboardCode::CloseCd => 160,
        KeyboardCode::EjectCd => 161,
        KeyboardCode::EjectCloseCd => 162,
        KeyboardCode::NextSong => 163,
        KeyboardCode::PlayPause => 164,
        KeyboardCode::PreviousSong => 165,
        KeyboardCode::StopCd => 166,
        KeyboardCode::Record => 167,
        KeyboardCode::Rewind => 168,
        KeyboardCode::Phone => 169,
        KeyboardCode::Iso => 170,
        KeyboardCode::Config => 171,
        KeyboardCode::HomePage => 172,
        KeyboardCode::Refresh => 173,
        KeyboardCode::Exit => 174,
        KeyboardCode::Move => 175,
        KeyboardCode::Edit => 176,
        KeyboardCode::ScrollUp => 177,
        KeyboardCode::ScrollDown => 178,
        KeyboardCode::KpLeftParen => 179,
        KeyboardCode::KpRightParen => 180,
        KeyboardCode::New => 181,
        KeyboardCode::Redo => 182,
        KeyboardCode::F13 => 183,
        KeyboardCode::F14 => 184,
        KeyboardCode::F15 => 185,
        KeyboardCode::F16 => 186,
        KeyboardCode::F17 => 187,
        KeyboardCode::F18 => 188,
        KeyboardCode::F19 => 189,
        KeyboardCode::F20 => 190,
        KeyboardCode::F21 => 191,
        KeyboardCode::F22 => 192,
        KeyboardCode::F23 => 193,
        KeyboardCode::F24 => 194,
        KeyboardCode::PlayCd => 200,
        KeyboardCode::PauseCd => 201,
        KeyboardCode::Prog3 => 202,
        KeyboardCode::Prog4 => 203,
        KeyboardCode::Dashboard => 204,
        KeyboardCode::Suspend => 205,
        KeyboardCode::Close => 206,
        KeyboardCode::Play => 207,
        KeyboardCode::FastForward => 208,
        KeyboardCode::BassBoost => 209,
        KeyboardCode::Print => 210,
        KeyboardCode::Hp => 211,
        KeyboardCode::Camera => 212,
        KeyboardCode::Sound => 213,
        KeyboardCode::Question => 214,
        KeyboardCode::Email => 215,
        KeyboardCode::Chat => 216,
        KeyboardCode::Search => 217,
        KeyboardCode::Connect => 218,
        KeyboardCode::Finance => 219,
        KeyboardCode::Sport => 220,
        KeyboardCode::Shop => 221,
        KeyboardCode::AlterErase => 222,
        KeyboardCode::Cancel => 223,
        KeyboardCode::BrightnessDown => 224,
        KeyboardCode::BrightnessUp => 225,
        KeyboardCode::Media => 226,
        KeyboardCode::SwitchVideoMode => 227,
        KeyboardCode::KbdIllumToggle => 228,
        KeyboardCode::KbdIllumDown => 229,
        KeyboardCode::KbdIllumUp => 230,
        KeyboardCode::Send => 231,
        KeyboardCode::Reply => 232,
        KeyboardCode::ForwardMail => 233,
        KeyboardCode::Save => 234,
        KeyboardCode::Documents => 235,
        KeyboardCode::Battery => 236,
        KeyboardCode::Bluetooth => 237,
        KeyboardCode::Wlan => 238,
        KeyboardCode::Uwb => 239,
        KeyboardCode::Unknown => 0,
    }
}

} // verus!
