//! Keyboard key identifiers and the keyboard events that the mapping engine emits.
use vstd::prelude::*;

use crate::text::str_eq;

verus! {

/// Number of keyboard codes in the enumeration.
pub const KEYBOARD_CODE_COUNT: u8 = 222;

/// A key of the virtual keyboard, independent of the platform that emits it.
#[derive(Debug, Clone, Copy, PartialEq, Eq, Hash, Structural)]
pub enum KeyboardCode {
    Reserved,
    Escape,
    Num1,
    Num2,
    Num3,
    Num4,
    Num5,
    Num6,
    Num7,
    Num8,
    Num9,
    Num0,
    Minus,
    Equal,
    Backspace,
    Tab,
    Q,
    W,
    E,
    R,
    T,
    Y,
    U,
    I,
    O,
    P,
    LeftBrace,
    RightBrace,
    Enter,
    LeftControl,
    A,
    S,
    D,
    F,
    G,
    H,
    J,
    K,
    L,
    Semicolon,
    Apostrophe,
    Grave,
    LeftShift,
    Backslash,
    Z,
    X,
    C,
    V,
    B,
    N,
    M,
    Comma,
    Dot,
    Slash,
    RightShift,
    KpAsterisk,
    LeftAlt,
    Space,
    CapsLock,
    F1,
    F2,
    F3,
    F4,
    F5,
    F6,
    F7,
    F8,
    F9,
    F10,
    NumLock,
    ScrollLock,
    Kp7,
    Kp8,
    Kp9,
    KpMinus,
    Kp4,
    Kp5,
    Kp6,
    KpPlus,
    Kp1,
    Kp2,
    Kp3,
    Kp0,
    KpDot,
    KpEnter,
    RightControl,
    KpSlash,
    SysRq,
    RightAlt,
    LineFeed,
    Home,
    Up,
    PageUp,
    Left,
    Right,
    End,
    Down,
    PageDown,
    Insert,
    Delete,
    Macro,
    Mute,
    VolumeDown,
    VolumeUp,
    Power,
    KpEqual,
    KpPlusMinus,
    Pause,
    Scale,
    KpComma,
    LeftMeta,
    RightMeta,
    Compose,
    Stop,
    Again,
    Props,
    Undo,
    Front,
    Copy,
    Open,
    Paste,
    Find,
    Cut,
    Help,
    Menu,
    Calc,
    Setup,
    Sleep,
    WakeUp,
    File,
    SendFile,
    DeleteFile,
    Xfer,
    Prog1,
    Prog2,
    Www,
    Msdos,
    Coffee,
    Direction,
    RotateDisplay,
    CycleWindows,
    Mail,
    Bookmarks,
    Computer,
    Back,
    Forward,
    CloseCd,
    EjectCd,
    EjectCloseCd,
    NextSong,
    PlayPause,
    PreviousSong,
    StopCd,
    Record,
    Rewind,
    Phone,
    Iso,
    Config,
    HomePage,
    Refresh,
    Exit,
    Move,
    Edit,
    ScrollUp,
    ScrollDown,
    KpLeftParen,
    KpRightParen,
    New,
    Redo,
    F13,
    F14,
    F15,
    F16,
    F17,
    F18,
    F19,
    F20,
    F21,
    F22,
    F23,
    F24,
    PlayCd,
    PauseCd,
    Prog3,
    Prog4,
    Dashboard,
    Suspend,
    Close,
    Play,
    FastForward,
    BassBoost,
    Print,
    Hp,
    Camera,
    Sound,
    Question,
    Email,
    Chat,
    Search,
    Connect,
    Finance,
    Sport,
    Shop,
    AlterErase,
    Cancel,
    BrightnessDown,
    BrightnessUp,
    Media,
    SwitchVideoMode,
    KbdIllumToggle,
    KbdIllumDown,
    KbdIllumUp,
    Send,
    Reply,
    ForwardMail,
    Save,
    Documents,
    Battery,
    Bluetooth,
    Wlan,
    Uwb,
    Unknown,
}

impl KeyboardCode {
    /// Position of the code in the fixed enumeration.
    pub open spec fn spec_index(self) -> u8 {
        match self {
            KeyboardCode::Reserved => 0,
            KeyboardCode::Escape => 1,
            KeyboardCode::Num1 => 2,
            KeyboardCode::Num2 => 3,
            KeyboardCode::Num3 => 4,
            KeyboardCode::Num4 => 5,
            KeyboardCode::Num5 => 6,
            KeyboardCode::Num6 => 7,
            KeyboardCode::Num7 => 8,
            KeyboardCode::Num8 => 9,
            KeyboardCode::Num9 => 10,
            KeyboardCode::Num0 => 11,
            KeyboardCode::Minus => 12,
            KeyboardCode::Equal => 13,
            KeyboardCode::Backspace => 14,
            KeyboardCode::Tab => 15,
            KeyboardCode::Q => 16,
            KeyboardCode::W => 17,
            KeyboardCode::E => 18,
            KeyboardCode::R => 19,
            KeyboardCode::T => 20,
            KeyboardCode::Y => 21,
            KeyboardCode::U => 22,
            KeyboardCode::I => 23,
            KeyboardCode::O => 24,
            KeyboardCode::P => 25,
            KeyboardCode::LeftBrace => 26,
            KeyboardCode::RightBrace => 27,
            KeyboardCode::Enter => 28,
            KeyboardCode::LeftControl => 29,
            KeyboardCode::A => 30,
            KeyboardCode::S => 31,
            KeyboardCode::D => 32,
            KeyboardCode::F => 33,
            KeyboardCode::G => 34,
            KeyboardCode::H => 35,
            KeyboardCode::J => 36,
            KeyboardCode::K => 37,
            KeyboardCode::L => 38,
            KeyboardCode::Semicolon => 39,
            KeyboardCode::Apostrophe => 40,
            KeyboardCode::Grave => 41,
            KeyboardCode::LeftShift => 42,
            KeyboardCode::Backslash => 43,
            KeyboardCode::Z => 44,
            KeyboardCode::X => 45,
            KeyboardCode::C => 46,
            KeyboardCode::V => 47,
            KeyboardCode::B => 48,
            KeyboardCode::N => 49,
            KeyboardCode::M => 50,
            KeyboardCode::Comma => 51,
            KeyboardCode::Dot => 52,
            KeyboardCode::Slash => 53,
            KeyboardCode::RightShift => 54,
            KeyboardCode::KpAsterisk => 55,
            KeyboardCode::LeftAlt => 56,
            KeyboardCode::Space => 57,
            KeyboardCode::CapsLock => 58,
            KeyboardCode::F1 => 59,
            KeyboardCode::F2 => 60,
            KeyboardCode::F3 => 61,
            KeyboardCode::F4 => 62,
            KeyboardCode::F5 => 63,
            KeyboardCode::F6 => 64,
            KeyboardCode::F7 => 65,
            KeyboardCode::F8 => 66,
            KeyboardCode::F9 => 67,
            KeyboardCode::F10 => 68,
            KeyboardCode::NumLock => 69,
            KeyboardCode::ScrollLock => 70,
            KeyboardCode::Kp7 => 71,
            KeyboardCode::Kp8 => 72,
            KeyboardCode::Kp9 => 73,
            KeyboardCode::KpMinus => 74,
            KeyboardCode::Kp4 => 75,
            KeyboardCode::Kp5 => 76,
            KeyboardCode::Kp6 => 77,
            KeyboardCode::KpPlus => 78,
            KeyboardCode::Kp1 => 79,
            KeyboardCode::Kp2 => 80,
            KeyboardCode::Kp3 => 81,
            KeyboardCode::Kp0 => 82,
            KeyboardCode::KpDot => 83,
            KeyboardCode::KpEnter => 84,
            KeyboardCode::RightControl => 85,
            KeyboardCode::KpSlash => 86,
            KeyboardCode::SysRq => 87,
            KeyboardCode::RightAlt => 88,
            KeyboardCode::LineFeed => 89,
            KeyboardCode::Home => 90,
            KeyboardCode::Up => 91,
            KeyboardCode::PageUp => 92,
            KeyboardCode::Left => 93,
            KeyboardCode::Right => 94,
            KeyboardCode::End => 95,
            KeyboardCode::Down => 96,
            KeyboardCode::PageDown => 97,
            KeyboardCode::Insert => 98,
            KeyboardCode::Delete => 99,
            KeyboardCode::Macro => 100,
            KeyboardCode::Mute => 101,
            KeyboardCode::VolumeDown => 102,
            KeyboardCode::VolumeUp => 103,
            KeyboardCode::Power => 104,
            KeyboardCode::KpEqual => 105,
            KeyboardCode::KpPlusMinus => 106,
            KeyboardCode::Pause => 107,
            KeyboardCode::Scale => 108,
            KeyboardCode::KpComma => 109,
            KeyboardCode::LeftMeta => 110,
            KeyboardCode::RightMeta => 111,
            KeyboardCode::Compose => 112,
            KeyboardCode::Stop => 113,
            KeyboardCode::Again => 114,
            KeyboardCode::Props => 115,
            KeyboardCode::Undo => 116,
            KeyboardCode::Front => 117,
            KeyboardCode::Copy => 118,
            KeyboardCode::Open => 119,
            KeyboardCode::Paste => 120,
            KeyboardCode::Find => 121,
            KeyboardCode::Cut => 122,
            KeyboardCode::Help => 123,
            KeyboardCode::Menu => 124,
            KeyboardCode::Calc => 125,
            KeyboardCode::Setup => 126,
            KeyboardCode::Sleep => 127,
            KeyboardCode::WakeUp => 128,
            KeyboardCode::File => 129,
            KeyboardCode::SendFile => 130,
            KeyboardCode::DeleteFile => 131,
            KeyboardCode::Xfer => 132,
            KeyboardCode::Prog1 => 133,
            KeyboardCode::Prog2 => 134,
            KeyboardCode::Www => 135,
            KeyboardCode::Msdos => 136,
            KeyboardCode::Coffee => 137,
            KeyboardCode::Direction => 138,
            KeyboardCode::RotateDisplay => 139,
            KeyboardCode::CycleWindows => 140,
            KeyboardCode::Mail => 141,
            KeyboardCode::Bookmarks => 142,
            KeyboardCode::Computer => 143,
            KeyboardCode::Back => 144,
            KeyboardCode::Forward => 145,
            KeyboardCode::CloseCd => 146,
            KeyboardCode::EjectCd => 147,
            KeyboardCode::EjectCloseCd => 148,
            KeyboardCode::NextSong => 149,
            KeyboardCode::PlayPause => 150,
            KeyboardCode::PreviousSong => 151,
            KeyboardCode::StopCd => 152,
            KeyboardCode::Record => 153,
            KeyboardCode::Rewind => 154,
            KeyboardCode::Phone => 155,
            KeyboardCode::Iso => 156,
            KeyboardCode::Config => 157,
            KeyboardCode::HomePage => 158,
            KeyboardCode::Refresh => 159,
            KeyboardCode::Exit => 160,
            KeyboardCode::Move => 161,
            KeyboardCode::Edit => 162,
            KeyboardCode::ScrollUp => 163,
            KeyboardCode::ScrollDown => 164,
            KeyboardCode::KpLeftParen => 165,
            KeyboardCode::KpRightParen => 166,
            KeyboardCode::New => 167,
            KeyboardCode::Redo => 168,
            KeyboardCode::F13 => 169,
            KeyboardCode::F14 => 170,
            KeyboardCode::F15 => 171,
            KeyboardCode::F16 => 172,
            KeyboardCode::F17 => 173,
            KeyboardCode::F18 => 174,
            KeyboardCode::F19 => 175,
            KeyboardCode::F20 => 176,
            KeyboardCode::F21 => 177,
            KeyboardCode::F22 => 178,
            KeyboardCode::F23 => 179,
            KeyboardCode::F24 => 180,
            KeyboardCode::PlayCd => 181,
            KeyboardCode::PauseCd => 182,
            KeyboardCode::Prog3 => 183,
            KeyboardCode::Prog4 => 184,
            KeyboardCode::Dashboard => 185,
            KeyboardCode::Suspend => 186,
            KeyboardCode::Close => 187,
            KeyboardCode::Play => 188,
            KeyboardCode::FastForward => 189,
            KeyboardCode::BassBoost => 190,
            KeyboardCode::Print => 191,
            KeyboardCode::Hp => 192,
            KeyboardCode::Camera => 193,
            KeyboardCode::Sound => 194,
            KeyboardCode::Question => 195,
            KeyboardCode::Email => 196,
            KeyboardCode::Chat => 197,
            KeyboardCode::Search => 198,
            KeyboardCode::Connect => 199,
            KeyboardCode::Finance => 200,
            KeyboardCode::Sport => 201,
            KeyboardCode::Shop => 202,
            KeyboardCode::AlterErase => 203,
            KeyboardCode::Cancel => 204,
            KeyboardCode::BrightnessDown => 205,
            KeyboardCode::BrightnessUp => 206,
            KeyboardCode::Media => 207,
            KeyboardCode::SwitchVideoMode => 208,
            KeyboardCode::KbdIllumToggle => 209,
            KeyboardCode::KbdIllumDown => 210,
            KeyboardCode::KbdIllumUp => 211,
            KeyboardCode::Send => 212,
            KeyboardCode::Reply => 213,
            KeyboardCode::ForwardMail => 214,
            KeyboardCode::Save => 215,
            KeyboardCode::Documents => 216,
            KeyboardCode::Battery => 217,
            KeyboardCode::Bluetooth => 218,
            KeyboardCode::Wlan => 219,
            KeyboardCode::Uwb => 220,
            KeyboardCode::Unknown => 221,
        }
    }

    /// The code at a position of the enumeration (`Unknown` past its end).
    pub open spec fn spec_at(i: u8) -> KeyboardCode {
        match i {
            0 => KeyboardCode::Reserved,
            1 => KeyboardCode::Escape,
            2 => KeyboardCode::Num1,
            3 => KeyboardCode::Num2,
            4 => KeyboardCode::Num3,
            5 => KeyboardCode::Num4,
            6 => KeyboardCode::Num5,
            7 => KeyboardCode::Num6,
            8 => KeyboardCode::Num7,
            9 => KeyboardCode::Num8,
            10 => KeyboardCode::Num9,
            11 => KeyboardCode::Num0,
            12 => KeyboardCode::Minus,
            13 => KeyboardCode::Equal,
            14 => KeyboardCode::Backspace,
            15 => KeyboardCode::Tab,
            16 => KeyboardCode::Q,
            17 => KeyboardCode::W,
            18 => KeyboardCode::E,
            19 => KeyboardCode::R,
            20 => KeyboardCode::T,
            21 => KeyboardCode::Y,
            22 => KeyboardCode::U,
            23 => KeyboardCode::I,
            24 => KeyboardCode::O,
            25 => KeyboardCode::P,
            26 => KeyboardCode::LeftBrace,
            27 => KeyboardCode::RightBrace,
            28 => KeyboardCode::Enter,
            29 => KeyboardCode::LeftControl,
            30 => KeyboardCode::A,
            31 => KeyboardCode::S,
            32 => KeyboardCode::D,
            33 => KeyboardCode::F,
            34 => KeyboardCode::G,
            35 => KeyboardCode::H,
            36 => KeyboardCode::J,
            37 => KeyboardCode::K,
            38 => KeyboardCode::L,
            39 => KeyboardCode::Semicolon,
            40 => KeyboardCode::Apostrophe,
            41 => KeyboardCode::Grave,
            42 => KeyboardCode::LeftShift,
            43 => KeyboardCode::Backslash,
            44 => KeyboardCode::Z,
            45 => KeyboardCode::X,
            46 => KeyboardCode::C,
            47 => KeyboardCode::V,
            48 => KeyboardCode::B,
            49 => KeyboardCode::N,
            50 => KeyboardCode::M,
            51 => KeyboardCode::Comma,
            52 => KeyboardCode::Dot,
            53 => KeyboardCode::Slash,
            54 => KeyboardCode::RightShift,
            55 => KeyboardCode::KpAsterisk,
            56 => KeyboardCode::LeftAlt,
            57 => KeyboardCode::Space,
            58 => KeyboardCode::CapsLock,
            59 => KeyboardCode::F1,
            60 => KeyboardCode::F2,
            61 => KeyboardCode::F3,
            62 => KeyboardCode::F4,
            63 => KeyboardCode::F5,
            64 => KeyboardCode::F6,
            65 => KeyboardCode::F7,
            66 => KeyboardCode::F8,
            67 => KeyboardCode::F9,
            68 => KeyboardCode::F10,
            69 => KeyboardCode::NumLock,
            70 => KeyboardCode::ScrollLock,
            71 => KeyboardCode::Kp7,
            72 => KeyboardCode::Kp8,
            73 => KeyboardCode::Kp9,
            74 => KeyboardCode::KpMinus,
            75 => KeyboardCode::Kp4,
            76 => KeyboardCode::Kp5,
            77 => KeyboardCode::Kp6,
            78 => KeyboardCode::KpPlus,
            79 => KeyboardCode::Kp1,
            80 => KeyboardCode::Kp2,
            81 => KeyboardCode::Kp3,
            82 => KeyboardCode::Kp0,
            83 => KeyboardCode::KpDot,
            84 => KeyboardCode::KpEnter,
            85 => KeyboardCode::RightControl,
            86 => KeyboardCode::KpSlash,
            87 => KeyboardCode::SysRq,
            88 => KeyboardCode::RightAlt,
            89 => KeyboardCode::LineFeed,
            90 => KeyboardCode::Home,
            91 => KeyboardCode::Up,
            92 => KeyboardCode::PageUp,
            93 => KeyboardCode::Left,
            94 => KeyboardCode::Right,
            95 => KeyboardCode::End,
            96 => KeyboardCode::Down,
            97 => KeyboardCode::PageDown,
            98 => KeyboardCode::Insert,
            99 => KeyboardCode::Delete,
            100 => KeyboardCode::Macro,
            101 => KeyboardCode::Mute,
            102 => KeyboardCode::VolumeDown,
            103 => KeyboardCode::VolumeUp,
            104 => KeyboardCode::Power,
            105 => KeyboardCode::KpEqual,
            106 => KeyboardCode::KpPlusMinus,
            107 => KeyboardCode::Pause,
            108 => KeyboardCode::Scale,
            109 => KeyboardCode::KpComma,
            110 => KeyboardCode::LeftMeta,
            111 => KeyboardCode::RightMeta,
            112 => KeyboardCode::Compose,
            113 => KeyboardCode::Stop,
            114 => KeyboardCode::Again,
            115 => KeyboardCode::Props,
            116 => KeyboardCode::Undo,
            117 => KeyboardCode::Front,
            118 => KeyboardCode::Copy,
            119 => KeyboardCode::Open,
            120 => KeyboardCode::Paste,
            121 => KeyboardCode::Find,
            122 => KeyboardCode::Cut,
            123 => KeyboardCode::Help,
            124 => KeyboardCode::Menu,
            125 => KeyboardCode::Calc,
            126 => KeyboardCode::Setup,
            127 => KeyboardCode::Sleep,
            128 => KeyboardCode::WakeUp,
            129 => KeyboardCode::File,
            130 => KeyboardCode::SendFile,
            131 => KeyboardCode::DeleteFile,
            132 => KeyboardCode::Xfer,
            133 => KeyboardCode::Prog1,
            134 => KeyboardCode::Prog2,
            135 => KeyboardCode::Www,
            136 => KeyboardCode::Msdos,
            137 => KeyboardCode::Coffee,
            138 => KeyboardCode::Direction,
            139 => KeyboardCode::RotateDisplay,
            140 => KeyboardCode::CycleWindows,
            141 => KeyboardCode::Mail,
            142 => KeyboardCode::Bookmarks,
            143 => KeyboardCode::Computer,
            144 => KeyboardCode::Back,
            145 => KeyboardCode::Forward,
            146 => KeyboardCode::CloseCd,
            147 => KeyboardCode::EjectCd,
            148 => KeyboardCode::EjectCloseCd,
            149 => KeyboardCode::NextSong,
            150 => KeyboardCode::PlayPause,
            151 => KeyboardCode::PreviousSong,
            152 => KeyboardCode::StopCd,
            153 => KeyboardCode::Record,
            154 => KeyboardCode::Rewind,
            155 => KeyboardCode::Phone,
            156 => KeyboardCode::Iso,
            157 => KeyboardCode::Config,
            158 => KeyboardCode::HomePage,
            159 => KeyboardCode::Refresh,
            160 => KeyboardCode::Exit,
            161 => KeyboardCode::Move,
            162 => KeyboardCode::Edit,
            163 => KeyboardCode::ScrollUp,
            164 => KeyboardCode::ScrollDown,
            165 => KeyboardCode::KpLeftParen,
            166 => KeyboardCode::KpRightParen,
            167 => KeyboardCode::New,
            168 => KeyboardCode::Redo,
            169 => KeyboardCode::F13,
            170 => KeyboardCode::F14,
            171 => KeyboardCode::F15,
            172 => KeyboardCode::F16,
            173 => KeyboardCode::F17,
            174 => KeyboardCode::F18,
            175 => KeyboardCode::F19,
            176 => KeyboardCode::F20,
            177 => KeyboardCode::F21,
            178 => KeyboardCode::F22,
            179 => KeyboardCode::F23,
            180 => KeyboardCode::F24,
            181 => KeyboardCode::PlayCd,
            182 => KeyboardCode::PauseCd,
            183 => KeyboardCode::Prog3,
            184 => KeyboardCode::Prog4,
            185 => KeyboardCode::Dashboard,
            186 => KeyboardCode::Suspend,
            187 => KeyboardCode::Close,
            188 => KeyboardCode::Play,
            189 => KeyboardCode::FastForward,
            190 => KeyboardCode::BassBoost,
            191 => KeyboardCode::Print,
            192 => KeyboardCode::Hp,
            193 => KeyboardCode::Camera,
            194 => KeyboardCode::Sound,
            195 => KeyboardCode::Question,
            196 => KeyboardCode::Email,
            197 => KeyboardCode::Chat,
            198 => KeyboardCode::Search,
            199 => KeyboardCode::Connect,
            200 => KeyboardCode::Finance,
            201 => KeyboardCode::Sport,
            202 => KeyboardCode::Shop,
            203 => KeyboardCode::AlterErase,
            204 => KeyboardCode::Cancel,
            205 => KeyboardCode::BrightnessDown,
            206 => KeyboardCode::BrightnessUp,
            207 => KeyboardCode::Media,
            208 => KeyboardCode::SwitchVideoMode,
            209 => KeyboardCode::KbdIllumToggle,
            210 => KeyboardCode::KbdIllumDown,
            211 => KeyboardCode::KbdIllumUp,
            212 => KeyboardCode::Send,
            213 => KeyboardCode::Reply,
            214 => KeyboardCode::ForwardMail,
            215 => KeyboardCode::Save,
            216 => KeyboardCode::Documents,
            217 => KeyboardCode::Battery,
            218 => KeyboardCode::Bluetooth,
            219 => KeyboardCode::Wlan,
            220 => KeyboardCode::Uwb,
            _ => KeyboardCode::Unknown,
        }
    }

    /// The name of the key, spelled as the variant is.
    pub open spec fn spec_label(self) -> Seq<char> {
        match self {
            KeyboardCode::Reserved => "Reserved"@,
            KeyboardCode::Escape => "Escape"@,
            KeyboardCode::Num1 => "Num1"@,
            KeyboardCode::Num2 => "Num2"@,
            KeyboardCode::Num3 => "Num3"@,
            KeyboardCode::Num4 => "Num4"@,
            KeyboardCode::Num5 => "Num5"@,
            KeyboardCode::Num6 => "Num6"@,
            KeyboardCode::Num7 => "Num7"@,
            KeyboardCode::Num8 => "Num8"@,
            KeyboardCode::Num9 => "Num9"@,
            KeyboardCode::Num0 => "Num0"@,
            KeyboardCode::Minus => "Minus"@,
            KeyboardCode::Equal => "Equal"@,
            KeyboardCode::Backspace => "Backspace"@,
            KeyboardCode::Tab => "Tab"@,
            KeyboardCode::Q => "Q"@,
            KeyboardCode::W => "W"@,
            KeyboardCode::E => "E"@,
            KeyboardCode::R => "R"@,
            KeyboardCode::T => "T"@,
            KeyboardCode::Y => "Y"@,
            KeyboardCode::U => "U"@,
            KeyboardCode::I => "I"@,
            KeyboardCode::O => "O"@,
            KeyboardCode::P => "P"@,
            KeyboardCode::LeftBrace => "LeftBrace"@,
            KeyboardCode::RightBrace => "RightBrace"@,
            KeyboardCode::Enter => "Enter"@,
            KeyboardCode::LeftControl => "LeftControl"@,
            KeyboardCode::A => "A"@,
            KeyboardCode::S => "S"@,
            KeyboardCode::D => "D"@,
            KeyboardCode::F => "F"@,
            KeyboardCode::G => "G"@,
            KeyboardCode::H => "H"@,
            KeyboardCode::J => "J"@,
            KeyboardCode::K => "K"@,
            KeyboardCode::L => "L"@,
            KeyboardCode::Semicolon => "Semicolon"@,
            KeyboardCode::Apostrophe => "Apostrophe"@,
            KeyboardCode::Grave => "Grave"@,
            KeyboardCode::LeftShift => "LeftShift"@,
            KeyboardCode::Backslash => "Backslash"@,
            KeyboardCode::Z => "Z"@,
            KeyboardCode::X => "X"@,
            KeyboardCode::C => "C"@,
            KeyboardCode::V => "V"@,
            KeyboardCode::B => "B"@,
            KeyboardCode::N => "N"@,
            KeyboardCode::M => "M"@,
            KeyboardCode::Comma => "Comma"@,
            KeyboardCode::Dot => "Dot"@,
            KeyboardCode::Slash => "Slash"@,
            KeyboardCode::RightShift => "RightShift"@,
            KeyboardCode::KpAsterisk => "KpAsterisk"@,
            KeyboardCode::LeftAlt => "LeftAlt"@,
            KeyboardCode::Space => "Space"@,
            KeyboardCode::CapsLock => "CapsLock"@,
            KeyboardCode::F1 => "F1"@,
            KeyboardCode::F2 => "F2"@,
            KeyboardCode::F3 => "F3"@,
            KeyboardCode::F4 => "F4"@,
            KeyboardCode::F5 => "F5"@,
            KeyboardCode::F6 => "F6"@,
            KeyboardCode::F7 => "F7"@,
            KeyboardCode::F8 => "F8"@,
            KeyboardCode::F9 => "F9"@,
            KeyboardCode::F10 => "F10"@,
            KeyboardCode::NumLock => "NumLock"@,
            KeyboardCode::ScrollLock => "ScrollLock"@,
            KeyboardCode::Kp7 => "Kp7"@,
            KeyboardCode::Kp8 => "Kp8"@,
            KeyboardCode::Kp9 => "Kp9"@,
            KeyboardCode::KpMinus => "KpMinus"@,
            KeyboardCode::Kp4 => "Kp4"@,
            KeyboardCode::Kp5 => "Kp5"@,
            KeyboardCode::Kp6 => "Kp6"@,
            KeyboardCode::KpPlus => "KpPlus"@,
            KeyboardCode::Kp1 => "Kp1"@,
            KeyboardCode::Kp2 => "Kp2"@,
            KeyboardCode::Kp3 => "Kp3"@,
            KeyboardCode::Kp0 => "Kp0"@,
            KeyboardCode::KpDot => "KpDot"@,
            KeyboardCode::KpEnter => "KpEnter"@,
            KeyboardCode::RightControl => "RightControl"@,
            KeyboardCode::KpSlash => "KpSlash"@,
            KeyboardCode::SysRq => "SysRq"@,
            KeyboardCode::RightAlt => "RightAlt"@,
            KeyboardCode::LineFeed => "LineFeed"@,
            KeyboardCode::Home => "Home"@,
            KeyboardCode::Up => "Up"@,
            KeyboardCode::PageUp => "PageUp"@,
            KeyboardCode::Left => "Left"@,
            KeyboardCode::Right => "Right"@,
            KeyboardCode::End => "End"@,
            KeyboardCode::Down => "Down"@,
            KeyboardCode::PageDown => "PageDown"@,
            KeyboardCode::Insert => "Insert"@,
            KeyboardCode::Delete => "Delete"@,
            KeyboardCode::Macro => "Macro"@,
            KeyboardCode::Mute => "Mute"@,
            KeyboardCode::VolumeDown => "VolumeDown"@,
            KeyboardCode::VolumeUp => "VolumeUp"@,
            KeyboardCode::Power => "Power"@,
            KeyboardCode::KpEqual => "KpEqual"@,
            KeyboardCode::KpPlusMinus => "KpPlusMinus"@,
            KeyboardCode::Pause => "Pause"@,
            KeyboardCode::Scale => "Scale"@,
            KeyboardCode::KpComma => "KpComma"@,
            KeyboardCode::LeftMeta => "LeftMeta"@,
            KeyboardCode::RightMeta => "RightMeta"@,
            KeyboardCode::Compose => "Compose"@,
            KeyboardCode::Stop => "Stop"@,
            KeyboardCode::Again => "Again"@,
            KeyboardCode::Props => "Props"@,
            KeyboardCode::Undo => "Undo"@,
            KeyboardCode::Front => "Front"@,
            KeyboardCode::Copy => "Copy"@,
            KeyboardCode::Open => "Open"@,
            KeyboardCode::Paste => "Paste"@,
            KeyboardCode::Find => "Find"@,
            KeyboardCode::Cut => "Cut"@,
            KeyboardCode::Help => "Help"@,
            KeyboardCode::Menu => "Menu"@,
            KeyboardCode::Calc => "Calc"@,
            KeyboardCode::Setup => "Setup"@,
            KeyboardCode::Sleep => "Sleep"@,
            KeyboardCode::WakeUp => "WakeUp"@,
            KeyboardCode::File => "File"@,
            KeyboardCode::SendFile => "SendFile"@,
            KeyboardCode::DeleteFile => "DeleteFile"@,
            KeyboardCode::Xfer => "Xfer"@,
            KeyboardCode::Prog1 => "Prog1"@,
            KeyboardCode::Prog2 => "Prog2"@,
            KeyboardCode::Www => "Www"@,
            KeyboardCode::Msdos => "Msdos"@,
            KeyboardCode::Coffee => "Coffee"@,
            KeyboardCode::Direction => "Direction"@,
            KeyboardCode::RotateDisplay => "RotateDisplay"@,
            KeyboardCode::CycleWindows => "CycleWindows"@,
            KeyboardCode::Mail => "Mail"@,
            KeyboardCode::Bookmarks => "Bookmarks"@,
            KeyboardCode::Computer => "Computer"@,
            KeyboardCode::Back => "Back"@,
            KeyboardCode::Forward => "Forward"@,
            KeyboardCode::CloseCd => "CloseCd"@,
            KeyboardCode::EjectCd => "EjectCd"@,
            KeyboardCode::EjectCloseCd => "EjectCloseCd"@,
            KeyboardCode::NextSong => "NextSong"@,
            KeyboardCode::PlayPause => "PlayPause"@,
            KeyboardCode::PreviousSong => "PreviousSong"@,
            KeyboardCode::StopCd => "StopCd"@,
            KeyboardCode::Record => "Record"@,
            KeyboardCode::Rewind => "Rewind"@,
            KeyboardCode::Phone => "Phone"@,
            KeyboardCode::Iso => "Iso"@,
            KeyboardCode::Config => "Config"@,
            KeyboardCode::HomePage => "HomePage"@,
            KeyboardCode::Refresh => "Refresh"@,
            KeyboardCode::Exit => "Exit"@,
            KeyboardCode::Move => "Move"@,
            KeyboardCode::Edit => "Edit"@,
            KeyboardCode::ScrollUp => "ScrollUp"@,
            KeyboardCode::ScrollDown => "ScrollDown"@,
            KeyboardCode::KpLeftParen => "KpLeftParen"@,
            KeyboardCode::KpRightParen => "KpRightParen"@,
            KeyboardCode::New => "New"@,
            KeyboardCode::Redo => "Redo"@,
            KeyboardCode::F13 => "F13"@,
            KeyboardCode::F14 => "F14"@,
            KeyboardCode::F15 => "F15"@,
            KeyboardCode::F16 => "F16"@,
            KeyboardCode::F17 => "F17"@,
            KeyboardCode::F18 => "F18"@,
            KeyboardCode::F19 => "F19"@,
            KeyboardCode::F20 => "F20"@,
            KeyboardCode::F21 => "F21"@,
            KeyboardCode::F22 => "F22"@,
            KeyboardCode::F23 => "F23"@,
            KeyboardCode::F24 => "F24"@,
            KeyboardCode::PlayCd => "PlayCd"@,
            KeyboardCode::PauseCd => "PauseCd"@,
            KeyboardCode::Prog3 => "Prog3"@,
            KeyboardCode::Prog4 => "Prog4"@,
            KeyboardCode::Dashboard => "Dashboard"@,
            KeyboardCode::Suspend => "Suspend"@,
            KeyboardCode::Close => "Close"@,
            KeyboardCode::Play => "Play"@,
            KeyboardCode::FastForward => "FastForward"@,
            KeyboardCode::BassBoost => "BassBoost"@,
            KeyboardCode::Print => "Print"@,
            KeyboardCode::Hp => "Hp"@,
            KeyboardCode::Camera => "Camera"@,
            KeyboardCode::Sound => "Sound"@,
            KeyboardCode::Question => "Question"@,
            KeyboardCode::Email => "Email"@,
            KeyboardCode::Chat => "Chat"@,
            KeyboardCode::Search => "Search"@,
            KeyboardCode::Connect => "Connect"@,
            KeyboardCode::Finance => "Finance"@,
            KeyboardCode::Sport => "Sport"@,
            KeyboardCode::Shop => "Shop"@,
            KeyboardCode::AlterErase => "AlterErase"@,
            KeyboardCode::Cancel => "Cancel"@,
            KeyboardCode::BrightnessDown => "BrightnessDown"@,
            KeyboardCode::BrightnessUp => "BrightnessUp"@,
            KeyboardCode::Media => "Media"@,
            KeyboardCode::SwitchVideoMode => "SwitchVideoMode"@,
            KeyboardCode::KbdIllumToggle => "KbdIllumToggle"@,
            KeyboardCode::KbdIllumDown => "KbdIllumDown"@,
            KeyboardCode::KbdIllumUp => "KbdIllumUp"@,
            KeyboardCode::Send => "Send"@,
            KeyboardCode::Reply => "Reply"@,
            KeyboardCode::ForwardMail => "ForwardMail"@,
            KeyboardCode::Save => "Save"@,
            KeyboardCode::Documents => "Documents"@,
            KeyboardCode::Battery => "Battery"@,
            KeyboardCode::Bluetooth => "Bluetooth"@,
            KeyboardCode::Wlan => "Wlan"@,
            KeyboardCode::Uwb => "Uwb"@,
            KeyboardCode::Unknown => "Unknown"@,
        }
    }

    /// The first code, from position `i` on, whose name is `s`.
    pub open spec fn spec_first_named(s: Seq<char>, i: int) -> Option<KeyboardCode>
        decreases KEYBOARD_CODE_COUNT - i,
    {
        if i < 0 || i >= KEYBOARD_CODE_COUNT {
            None
        } else if Self::spec_at(i as u8).spec_label() == s {
            Some(Self::spec_at(i as u8))
        } else {
            Self::spec_first_named(s, i + 1)
        }
    }

    /// The code that a name denotes, if any.
    pub open spec fn spec_from_name(s: Seq<char>) -> Option<KeyboardCode> {
        Self::spec_first_named(s, 0)
    }

    pub proof fn lemma_index_round_trip(self)
        ensures
            self.spec_index() < KEYBOARD_CODE_COUNT,
            Self::spec_at(self.spec_index()) == self,
    {
    }

    /// Position of the code in the fixed enumeration.
    pub fn index(&self) -> (r: u8)
        ensures
            r == self.spec_index(),
    {
        match self {
            KeyboardCode::Reserved => 0,
            KeyboardCode::Escape => 1,
            KeyboardCode::Num1 => 2,
            KeyboardCode::Num2 => 3,
            KeyboardCode::Num3 => 4,
            KeyboardCode::Num4 => 5,
            KeyboardCode::Num5 => 6,
            KeyboardCode::Num6 => 7,
            KeyboardCode::Num7 => 8,
            KeyboardCode::Num8 => 9,
            KeyboardCode::Num9 => 10,
            KeyboardCode::Num0 => 11,
            KeyboardCode::Minus => 12,
            KeyboardCode::Equal => 13,
            KeyboardCode::Backspace => 14,
            KeyboardCode::Tab => 15,
            KeyboardCode::Q => 16,
            KeyboardCode::W => 17,
            KeyboardCode::E => 18,
            KeyboardCode::R => 19,
            KeyboardCode::T => 20,
            KeyboardCode::Y => 21,
            KeyboardCode::U => 22,
            KeyboardCode::I => 23,
            KeyboardCode::O => 24,
            KeyboardCode::P => 25,
            KeyboardCode::LeftBrace => 26,
            KeyboardCode::RightBrace => 27,
            KeyboardCode::Enter => 28,
            KeyboardCode::LeftControl => 29,
            KeyboardCode::A => 30,
            KeyboardCode::S => 31,
            KeyboardCode::D => 32,
            KeyboardCode::F => 33,
            KeyboardCode::G => 34,
            KeyboardCode::H => 35,
            KeyboardCode::J => 36,
            KeyboardCode::K => 37,
            KeyboardCode::L => 38,
            KeyboardCode::Semicolon => 39,
            KeyboardCode::Apostrophe => 40,
            KeyboardCode::Grave => 41,
            KeyboardCode::LeftShift => 42,
            KeyboardCode::Backslash => 43,
            KeyboardCode::Z => 44,
            KeyboardCode::X => 45,
            KeyboardCode::C => 46,
            KeyboardCode::V => 47,
            KeyboardCode::B => 48,
            KeyboardCode::N => 49,
            KeyboardCode::M => 50,
            KeyboardCode::Comma => 51,
            KeyboardCode::Dot => 52,
            KeyboardCode::Slash => 53,
            KeyboardCode::RightShift => 54,
            KeyboardCode::KpAsterisk => 55,
            KeyboardCode::LeftAlt => 56,
            KeyboardCode::Space => 57,
            KeyboardCode::CapsLock => 58,
            KeyboardCode::F1 => 59,
            KeyboardCode::F2 => 60,
            KeyboardCode::F3 => 61,
            KeyboardCode::F4 => 62,
            KeyboardCode::F5 => 63,
            KeyboardCode::F6 => 64,
            KeyboardCode::F7 => 65,
            KeyboardCode::F8 => 66,
            KeyboardCode::F9 => 67,
            KeyboardCode::F10 => 68,
            KeyboardCode::NumLock => 69,
            KeyboardCode::ScrollLock => 70,
            KeyboardCode::Kp7 => 71,
            KeyboardCode::Kp8 => 72,
            KeyboardCode::Kp9 => 73,
            KeyboardCode::KpMinus => 74,
            KeyboardCode::Kp4 => 75,
            KeyboardCode::Kp5 => 76,
            KeyboardCode::Kp6 => 77,
            KeyboardCode::KpPlus => 78,
            KeyboardCode::Kp1 => 79,
            KeyboardCode::Kp2 => 80,
            KeyboardCode::Kp3 => 81,
            KeyboardCode::Kp0 => 82,
            KeyboardCode::KpDot => 83,
            KeyboardCode::KpEnter => 84,
            KeyboardCode::RightControl => 85,
            KeyboardCode::KpSlash => 86,
            KeyboardCode::SysRq => 87,
            KeyboardCode::RightAlt => 88,
            KeyboardCode::LineFeed => 89,
            KeyboardCode::Home => 90,
            KeyboardCode::Up => 91,
            KeyboardCode::PageUp => 92,
            KeyboardCode::Left => 93,
            KeyboardCode::Right => 94,
            KeyboardCode::End => 95,
            KeyboardCode::Down => 96,
            KeyboardCode::PageDown => 97,
            KeyboardCode::Insert => 98,
            KeyboardCode::Delete => 99,
            KeyboardCode::Macro => 100,
            KeyboardCode::Mute => 101,
            KeyboardCode::VolumeDown => 102,
            KeyboardCode::VolumeUp => 103,
            KeyboardCode::Power => 104,
            KeyboardCode::KpEqual => 105,
            KeyboardCode::KpPlusMinus => 106,
            KeyboardCode::Pause => 107,
            KeyboardCode::Scale => 108,
            KeyboardCode::KpComma => 109,
            KeyboardCode::LeftMeta => 110,
            KeyboardCode::RightMeta => 111,
            KeyboardCode::Compose => 112,
            KeyboardCode::Stop => 113,
            KeyboardCode::Again => 114,
            KeyboardCode::Props => 115,
            KeyboardCode::Undo => 116,
            KeyboardCode::Front => 117,
            KeyboardCode::Copy => 118,
            KeyboardCode::Open => 119,
            KeyboardCode::Paste => 120,
            KeyboardCode::Find => 121,
            KeyboardCode::Cut => 122,
            KeyboardCode::Help => 123,
            KeyboardCode::Menu => 124,
            KeyboardCode::Calc => 125,
            KeyboardCode::Setup => 126,
            KeyboardCode::Sleep => 127,
            KeyboardCode::WakeUp => 128,
            KeyboardCode::File => 129,
            KeyboardCode::SendFile => 130,
            KeyboardCode::DeleteFile => 131,
            KeyboardCode::Xfer => 132,
            KeyboardCode::Prog1 => 133,
            KeyboardCode::Prog2 => 134,
            KeyboardCode::Www => 135,
            KeyboardCode::Msdos => 136,
            KeyboardCode::Coffee => 137,
            KeyboardCode::Direction => 138,
            KeyboardCode::RotateDisplay => 139,
            KeyboardCode::CycleWindows => 140,
            KeyboardCode::Mail => 141,
            KeyboardCode::Bookmarks => 142,
            KeyboardCode::Computer => 143,
            KeyboardCode::Back => 144,
            KeyboardCode::Forward => 145,
            KeyboardCode::CloseCd => 146,
            KeyboardCode::EjectCd => 147,
            KeyboardCode::EjectCloseCd => 148,
            KeyboardCode::NextSong => 149,
            KeyboardCode::PlayPause => 150,
            KeyboardCode::PreviousSong => 151,
            KeyboardCode::StopCd => 152,
            KeyboardCode::Record => 153,
            KeyboardCode::Rewind => 154,
            KeyboardCode::Phone => 155,
            KeyboardCode::Iso => 156,
            KeyboardCode::Config => 157,
            KeyboardCode::HomePage => 158,
            KeyboardCode::Refresh => 159,
            KeyboardCode::Exit => 160,
            KeyboardCode::Move => 161,
            KeyboardCode::Edit => 162,
            KeyboardCode::ScrollUp => 163,
            KeyboardCode::ScrollDown => 164,
            KeyboardCode::KpLeftParen => 165,
            KeyboardCode::KpRightParen => 166,
            KeyboardCode::New => 167,
            KeyboardCode::Redo => 168,
            KeyboardCode::F13 => 169,
            KeyboardCode::F14 => 170,
            KeyboardCode::F15 => 171,
            KeyboardCode::F16 => 172,
            KeyboardCode::F17 => 173,
            KeyboardCode::F18 => 174,
            KeyboardCode::F19 => 175,
            KeyboardCode::F20 => 176,
            KeyboardCode::F21 => 177,
            KeyboardCode::F22 => 178,
            KeyboardCode::F23 => 179,
            KeyboardCode::F24 => 180,
            KeyboardCode::PlayCd => 181,
            KeyboardCode::PauseCd => 182,
            KeyboardCode::Prog3 => 183,
            KeyboardCode::Prog4 => 184,
            KeyboardCode::Dashboard => 185,
            KeyboardCode::Suspend => 186,
            KeyboardCode::Close => 187,
            KeyboardCode::Play => 188,
            KeyboardCode::FastForward => 189,
            KeyboardCode::BassBoost => 190,
            KeyboardCode::Print => 191,
            KeyboardCode::Hp => 192,
            KeyboardCode::Camera => 193,
            KeyboardCode::Sound => 194,
            KeyboardCode::Question => 195,
            KeyboardCode::Email => 196,
            KeyboardCode::Chat => 197,
            KeyboardCode::Search => 198,
            KeyboardCode::Connect => 199,
            KeyboardCode::Finance => 200,
            KeyboardCode::Sport => 201,
            KeyboardCode::Shop => 202,
            KeyboardCode::AlterErase => 203,
            KeyboardCode::Cancel => 204,
            KeyboardCode::BrightnessDown => 205,
            KeyboardCode::BrightnessUp => 206,
            KeyboardCode::Media => 207,
            KeyboardCode::SwitchVideoMode => 208,
            KeyboardCode::KbdIllumToggle => 209,
            KeyboardCode::KbdIllumDown => 210,
            KeyboardCode::KbdIllumUp => 211,
            KeyboardCode::Send => 212,
            KeyboardCode::Reply => 213,
            KeyboardCode::ForwardMail => 214,
            KeyboardCode::Save => 215,
            KeyboardCode::Documents => 216,
            KeyboardCode::Battery => 217,
            KeyboardCode::Bluetooth => 218,
            KeyboardCode::Wlan => 219,
            KeyboardCode::Uwb => 220,
            KeyboardCode::Unknown => 221,
        }
    }

    /// The code at a position of the enumeration (`Unknown` past its end).
    pub fn at(i: u8) -> (r: KeyboardCode)
        ensures
            r == Self::spec_at(i),
    {
        match i {
            0 => KeyboardCode::Reserved,
            1 => KeyboardCode::Escape,
            2 => KeyboardCode::Num1,
            3 => KeyboardCode::Num2,
            4 => KeyboardCode::Num3,
            5 => KeyboardCode::Num4,
            6 => KeyboardCode::Num5,
            7 => KeyboardCode::Num6,
            8 => KeyboardCode::Num7,
            9 => KeyboardCode::Num8,
            10 => KeyboardCode::Num9,
            11 => KeyboardCode::Num0,
            12 => KeyboardCode::Minus,
            13 => KeyboardCode::Equal,
            14 => KeyboardCode::Backspace,
            15 => KeyboardCode::Tab,
            16 => KeyboardCode::Q,
            17 => KeyboardCode::W,
            18 => KeyboardCode::E,
            19 => KeyboardCode::R,
            20 => KeyboardCode::T,
            21 => KeyboardCode::Y,
            22 => KeyboardCode::U,
            23 => KeyboardCode::I,
            24 => KeyboardCode::O,
            25 => KeyboardCode::P,
            26 => KeyboardCode::LeftBrace,
            27 => KeyboardCode::RightBrace,
            28 => KeyboardCode::Enter,
            29 => KeyboardCode::LeftControl,
            30 => KeyboardCode::A,
            31 => KeyboardCode::S,
            32 => KeyboardCode::D,
            33 => KeyboardCode::F,
            34 => KeyboardCode::G,
            35 => KeyboardCode::H,
            36 => KeyboardCode::J,
            37 => KeyboardCode::K,
            38 => KeyboardCode::L,
            39 => KeyboardCode::Semicolon,
            40 => KeyboardCode::Apostrophe,
            41 => KeyboardCode::Grave,
            42 => KeyboardCode::LeftShift,
            43 => KeyboardCode::Backslash,
            44 => KeyboardCode::Z,
            45 => KeyboardCode::X,
            46 => KeyboardCode::C,
            47 => KeyboardCode::V,
            48 => KeyboardCode::B,
            49 => KeyboardCode::N,
            50 => KeyboardCode::M,
            51 => KeyboardCode::Comma,
            52 => KeyboardCode::Dot,
            53 => KeyboardCode::Slash,
            54 => KeyboardCode::RightShift,
            55 => KeyboardCode::KpAsterisk,
            56 => KeyboardCode::LeftAlt,
            57 => KeyboardCode::Space,
            58 => KeyboardCode::CapsLock,
            59 => KeyboardCode::F1,
            60 => KeyboardCode::F2,
            61 => KeyboardCode::F3,
            62 => KeyboardCode::F4,
            63 => KeyboardCode::F5,
            64 => KeyboardCode::F6,
            65 => KeyboardCode::F7,
            66 => KeyboardCode::F8,
            67 => KeyboardCode::F9,
            68 => KeyboardCode::F10,
            69 => KeyboardCode::NumLock,
            70 => KeyboardCode::ScrollLock,
            71 => KeyboardCode::Kp7,
            72 => KeyboardCode::Kp8,
            73 => KeyboardCode::Kp9,
            74 => KeyboardCode::KpMinus,
            75 => KeyboardCode::Kp4,
            76 => KeyboardCode::Kp5,
            77 => KeyboardCode::Kp6,
            78 => KeyboardCode::KpPlus,
            79 => KeyboardCode::Kp1,
            80 => KeyboardCode::Kp2,
            81 => KeyboardCode::Kp3,
            82 => KeyboardCode::Kp0,
            83 => KeyboardCode::KpDot,
            84 => KeyboardCode::KpEnter,
            85 => KeyboardCode::RightControl,
            86 => KeyboardCode::KpSlash,
            87 => KeyboardCode::SysRq,
            88 => KeyboardCode::RightAlt,
            89 => KeyboardCode::LineFeed,
            90 => KeyboardCode::Home,
            91 => KeyboardCode::Up,
            92 => KeyboardCode::PageUp,
            93 => KeyboardCode::Left,
            94 => KeyboardCode::Right,
            95 => KeyboardCode::End,
            96 => KeyboardCode::Down,
            97 => KeyboardCode::PageDown,
            98 => KeyboardCode::Insert,
            99 => KeyboardCode::Delete,
            100 => KeyboardCode::Macro,
            101 => KeyboardCode::Mute,
            102 => KeyboardCode::VolumeDown,
            103 => KeyboardCode::VolumeUp,
            104 => KeyboardCode::Power,
            105 => KeyboardCode::KpEqual,
            106 => KeyboardCode::KpPlusMinus,
            107 => KeyboardCode::Pause,
            108 => KeyboardCode::Scale,
            109 => KeyboardCode::KpComma,
            110 => KeyboardCode::LeftMeta,
            111 => KeyboardCode::RightMeta,
            112 => KeyboardCode::Compose,
            113 => KeyboardCode::Stop,
            114 => KeyboardCode::Again,
            115 => KeyboardCode::Props,
            116 => KeyboardCode::Undo,
            117 => KeyboardCode::Front,
            118 => KeyboardCode::Copy,
            119 => KeyboardCode::Open,
            120 => KeyboardCode::Paste,
            121 => KeyboardCode::Find,
            122 => KeyboardCode::Cut,
            123 => KeyboardCode::Help,
            124 => KeyboardCode::Menu,
            125 => KeyboardCode::Calc,
            126 => KeyboardCode::Setup,
            127 => KeyboardCode::Sleep,
            128 => KeyboardCode::WakeUp,
            129 => KeyboardCode::File,
            130 => KeyboardCode::SendFile,
            131 => KeyboardCode::DeleteFile,
            132 => KeyboardCode::Xfer,
            133 => KeyboardCode::Prog1,
            134 => KeyboardCode::Prog2,
            135 => KeyboardCode::Www,
            136 => KeyboardCode::Msdos,
            137 => KeyboardCode::Coffee,
            138 => KeyboardCode::Direction,
            139 => KeyboardCode::RotateDisplay,
            140 => KeyboardCode::CycleWindows,
            141 => KeyboardCode::Mail,
            142 => KeyboardCode::Bookmarks,
            143 => KeyboardCode::Computer,
            144 => KeyboardCode::Back,
            145 => KeyboardCode::Forward,
            146 => KeyboardCode::CloseCd,
            147 => KeyboardCode::EjectCd,
            148 => KeyboardCode::EjectCloseCd,
            149 => KeyboardCode::NextSong,
            150 => KeyboardCode::PlayPause,
            151 => KeyboardCode::PreviousSong,
            152 => KeyboardCode::StopCd,
            153 => KeyboardCode::Record,
            154 => KeyboardCode::Rewind,
            155 => KeyboardCode::Phone,
            156 => KeyboardCode::Iso,
            157 => KeyboardCode::Config,
            158 => KeyboardCode::HomePage,
            159 => KeyboardCode::Refresh,
            160 => KeyboardCode::Exit,
            161 => KeyboardCode::Move,
            162 => KeyboardCode::Edit,
            163 => KeyboardCode::ScrollUp,
            164 => KeyboardCode::ScrollDown,
            165 => KeyboardCode::KpLeftParen,
            166 => KeyboardCode::KpRightParen,
            167 => KeyboardCode::New,
            168 => KeyboardCode::Redo,
            169 => KeyboardCode::F13,
            170 => KeyboardCode::F14,
            171 => KeyboardCode::F15,
            172 => KeyboardCode::F16,
            173 => KeyboardCode::F17,
            174 => KeyboardCode::F18,
            175 => KeyboardCode::F19,
            176 => KeyboardCode::F20,
            177 => KeyboardCode::F21,
            178 => KeyboardCode::F22,
            179 => KeyboardCode::F23,
            180 => KeyboardCode::F24,
            181 => KeyboardCode::PlayCd,
            182 => KeyboardCode::PauseCd,
            183 => KeyboardCode::Prog3,
            184 => KeyboardCode::Prog4,
            185 => KeyboardCode::Dashboard,
            186 => KeyboardCode::Suspend,
            187 => KeyboardCode::Close,
            188 => KeyboardCode::Play,
            189 => KeyboardCode::FastForward,
            190 => KeyboardCode::BassBoost,
            191 => KeyboardCode::Print,
            192 => KeyboardCode::Hp,
            193 => KeyboardCode::Camera,
            194 => KeyboardCode::Sound,
            195 => KeyboardCode::Question,
            196 => KeyboardCode::Email,
            197 => KeyboardCode::Chat,
            198 => KeyboardCode::Search,
            199 => KeyboardCode::Connect,
            200 => KeyboardCode::Finance,
            201 => KeyboardCode::Sport,
            202 => KeyboardCode::Shop,
            203 => KeyboardCode::AlterErase,
            204 => KeyboardCode::Cancel,
            205 => KeyboardCode::BrightnessDown,
            206 => KeyboardCode::BrightnessUp,
            207 => KeyboardCode::Media,
            208 => KeyboardCode::SwitchVideoMode,
            209 => KeyboardCode::KbdIllumToggle,
            210 => KeyboardCode::KbdIllumDown,
            211 => KeyboardCode::KbdIllumUp,
            212 => KeyboardCode::Send,
            213 => KeyboardCode::Reply,
            214 => KeyboardCode::ForwardMail,
            215 => KeyboardCode::Save,
            216 => KeyboardCode::Documents,
            217 => KeyboardCode::Battery,
            218 => KeyboardCode::Bluetooth,
            219 => KeyboardCode::Wlan,
            220 => KeyboardCode::Uwb,
            _ => KeyboardCode::Unknown,
        }
    }

    /// The name of the key.
    pub fn label(&self) -> (r: &'static str)
        ensures
            r@ == self.spec_label(),
    {
        match self {
            KeyboardCode::Reserved => "Reserved",
            KeyboardCode::Escape => "Escape",
            KeyboardCode::Num1 => "Num1",
            KeyboardCode::Num2 => "Num2",
            KeyboardCode::Num3 => "Num3",
            KeyboardCode::Num4 => "Num4",
            KeyboardCode::Num5 => "Num5",
            KeyboardCode::Num6 => "Num6",
            KeyboardCode::Num7 => "Num7",
            KeyboardCode::Num8 => "Num8",
            KeyboardCode::Num9 => "Num9",
            KeyboardCode::Num0 => "Num0",
            KeyboardCode::Minus => "Minus",
            KeyboardCode::Equal => "Equal",
            KeyboardCode::Backspace => "Backspace",
            KeyboardCode::Tab => "Tab",
            KeyboardCode::Q => "Q",
            KeyboardCode::W => "W",
            KeyboardCode::E => "E",
            KeyboardCode::R => "R",
            KeyboardCode::T => "T",
            KeyboardCode::Y => "Y",
            KeyboardCode::U => "U",
            KeyboardCode::I => "I",
            KeyboardCode::O => "O",
            KeyboardCode::P => "P",
            KeyboardCode::LeftBrace => "LeftBrace",
            KeyboardCode::RightBrace => "RightBrace",
            KeyboardCode::Enter => "Enter",
            KeyboardCode::LeftControl => "LeftControl",
            KeyboardCode::A => "A",
            KeyboardCode::S => "S",
            KeyboardCode::D => "D",
            KeyboardCode::F => "F",
            KeyboardCode::G => "G",
            KeyboardCode::H => "H",
            KeyboardCode::J => "J",
            KeyboardCode::K => "K",
            KeyboardCode::L => "L",
            KeyboardCode::Semicolon => "Semicolon",
            KeyboardCode::Apostrophe => "Apostrophe",
            KeyboardCode::Grave => "Grave",
            KeyboardCode::LeftShift => "LeftShift",
            KeyboardCode::Backslash => "Backslash",
            KeyboardCode::Z => "Z",
            KeyboardCode::X => "X",
            KeyboardCode::C => "C",
            KeyboardCode::V => "V",
            KeyboardCode::B => "B",
            KeyboardCode::N => "N",
            KeyboardCode::M => "M",
            KeyboardCode::Comma => "Comma",
            KeyboardCode::Dot => "Dot",
            KeyboardCode::Slash => "Slash",
            KeyboardCode::RightShift => "RightShift",
            KeyboardCode::KpAsterisk => "KpAsterisk",
            KeyboardCode::LeftAlt => "LeftAlt",
            KeyboardCode::Space => "Space",
            KeyboardCode::CapsLock => "CapsLock",
            KeyboardCode::F1 => "F1",
            KeyboardCode::F2 => "F2",
            KeyboardCode::F3 => "F3",
            KeyboardCode::F4 => "F4",
            KeyboardCode::F5 => "F5",
            KeyboardCode::F6 => "F6",
            KeyboardCode::F7 => "F7",
            KeyboardCode::F8 => "F8",
            KeyboardCode::F9 => "F9",
            KeyboardCode::F10 => "F10",
            KeyboardCode::NumLock => "NumLock",
            KeyboardCode::ScrollLock => "ScrollLock",
            KeyboardCode::Kp7 => "Kp7",
            KeyboardCode::Kp8 => "Kp8",
            KeyboardCode::Kp9 => "Kp9",
            KeyboardCode::KpMinus => "KpMinus",
            KeyboardCode::Kp4 => "Kp4",
            KeyboardCode::Kp5 => "Kp5",
            KeyboardCode::Kp6 => "Kp6",
            KeyboardCode::KpPlus => "KpPlus",
            KeyboardCode::Kp1 => "Kp1",
            KeyboardCode::Kp2 => "Kp2",
            KeyboardCode::Kp3 => "Kp3",
            KeyboardCode::Kp0 => "Kp0",
            KeyboardCode::KpDot => "KpDot",
            KeyboardCode::KpEnter => "KpEnter",
            KeyboardCode::RightControl => "RightControl",
            KeyboardCode::KpSlash => "KpSlash",
            KeyboardCode::SysRq => "SysRq",
            KeyboardCode::RightAlt => "RightAlt",
            KeyboardCode::LineFeed => "LineFeed",
            KeyboardCode::Home => "Home",
            KeyboardCode::Up => "Up",
            KeyboardCode::PageUp => "PageUp",
            KeyboardCode::Left => "Left",
            KeyboardCode::Right => "Right",
            KeyboardCode::End => "End",
            KeyboardCode::Down => "Down",
            KeyboardCode::PageDown => "PageDown",
            KeyboardCode::Insert => "Insert",
            KeyboardCode::Delete => "Delete",
            KeyboardCode::Macro => "Macro",
            KeyboardCode::Mute => "Mute",
            KeyboardCode::VolumeDown => "VolumeDown",
            KeyboardCode::VolumeUp => "VolumeUp",
            KeyboardCode::Power => "Power",
            KeyboardCode::KpEqual => "KpEqual",
            KeyboardCode::KpPlusMinus => "KpPlusMinus",
            KeyboardCode::Pause => "Pause",
            KeyboardCode::Scale => "Scale",
            KeyboardCode::KpComma => "KpComma",
            KeyboardCode::LeftMeta => "LeftMeta",
            KeyboardCode::RightMeta => "RightMeta",
            KeyboardCode::Compose => "Compose",
            KeyboardCode::Stop => "Stop",
            KeyboardCode::Again => "Again",
            KeyboardCode::Props => "Props",
            KeyboardCode::Undo => "Undo",
            KeyboardCode::Front => "Front",
            KeyboardCode::Copy => "Copy",
            KeyboardCode::Open => "Open",
            KeyboardCode::Paste => "Paste",
            KeyboardCode::Find => "Find",
            KeyboardCode::Cut => "Cut",
            KeyboardCode::Help => "Help",
            KeyboardCode::Menu => "Menu",
            KeyboardCode::Calc => "Calc",
            KeyboardCode::Setup => "Setup",
            KeyboardCode::Sleep => "Sleep",
            KeyboardCode::WakeUp => "WakeUp",
            KeyboardCode::File => "File",
            KeyboardCode::SendFile => "SendFile",
            KeyboardCode::DeleteFile => "DeleteFile",
            KeyboardCode::Xfer => "Xfer",
            KeyboardCode::Prog1 => "Prog1",
            KeyboardCode::Prog2 => "Prog2",
            KeyboardCode::Www => "Www",
            KeyboardCode::Msdos => "Msdos",
            KeyboardCode::Coffee => "Coffee",
            KeyboardCode::Direction => "Direction",
            KeyboardCode::RotateDisplay => "RotateDisplay",
            KeyboardCode::CycleWindows => "CycleWindows",
            KeyboardCode::Mail => "Mail",
            KeyboardCode::Bookmarks => "Bookmarks",
            KeyboardCode::Computer => "Computer",
            KeyboardCode::Back => "Back",
            KeyboardCode::Forward => "Forward",
            KeyboardCode::CloseCd => "CloseCd",
            KeyboardCode::EjectCd => "EjectCd",
            KeyboardCode::EjectCloseCd => "EjectCloseCd",
            KeyboardCode::NextSong => "NextSong",
            KeyboardCode::PlayPause => "PlayPause",
            KeyboardCode::PreviousSong => "PreviousSong",
            KeyboardCode::StopCd => "StopCd",
            KeyboardCode::Record => "Record",
            KeyboardCode::Rewind => "Rewind",
            KeyboardCode::Phone => "Phone",
            KeyboardCode::Iso => "Iso",
            KeyboardCode::Config => "Config",
            KeyboardCode::HomePage => "HomePage",
            KeyboardCode::Refresh => "Refresh",
            KeyboardCode::Exit => "Exit",
            KeyboardCode::Move => "Move",
            KeyboardCode::Edit => "Edit",
            KeyboardCode::ScrollUp => "ScrollUp",
            KeyboardCode::ScrollDown => "ScrollDown",
            KeyboardCode::KpLeftParen => "KpLeftParen",
            KeyboardCode::KpRightParen => "KpRightParen",
            KeyboardCode::New => "New",
            KeyboardCode::Redo => "Redo",
            KeyboardCode::F13 => "F13",
            KeyboardCode::F14 => "F14",
            KeyboardCode::F15 => "F15",
            KeyboardCode::F16 => "F16",
            KeyboardCode::F17 => "F17",
            KeyboardCode::F18 => "F18",
            KeyboardCode::F19 => "F19",
            KeyboardCode::F20 => "F20",
            KeyboardCode::F21 => "F21",
            KeyboardCode::F22 => "F22",
            KeyboardCode::F23 => "F23",
            KeyboardCode::F24 => "F24",
            KeyboardCode::PlayCd => "PlayCd",
            KeyboardCode::PauseCd => "PauseCd",
            KeyboardCode::Prog3 => "Prog3",
            KeyboardCode::Prog4 => "Prog4",
            KeyboardCode::Dashboard => "Dashboard",
            KeyboardCode::Suspend => "Suspend",
            KeyboardCode::Close => "Close",
            KeyboardCode::Play => "Play",
            KeyboardCode::FastForward => "FastForward",
            KeyboardCode::BassBoost => "BassBoost",
            KeyboardCode::Print => "Print",
            KeyboardCode::Hp => "Hp",
            KeyboardCode::Camera => "Camera",
            KeyboardCode::Sound => "Sound",
            KeyboardCode::Question => "Question",
            KeyboardCode::Email => "Email",
            KeyboardCode::Chat => "Chat",
            KeyboardCode::Search => "Search",
            KeyboardCode::Connect => "Connect",
            KeyboardCode::Finance => "Finance",
            KeyboardCode::Sport => "Sport",
            KeyboardCode::Shop => "Shop",
            KeyboardCode::AlterErase => "AlterErase",
            KeyboardCode::Cancel => "Cancel",
            KeyboardCode::BrightnessDown => "BrightnessDown",
            KeyboardCode::BrightnessUp => "BrightnessUp",
            KeyboardCode::Media => "Media",
            KeyboardCode::SwitchVideoMode => "SwitchVideoMode",
            KeyboardCode::KbdIllumToggle => "KbdIllumToggle",
            KeyboardCode::KbdIllumDown => "KbdIllumDown",
            KeyboardCode::KbdIllumUp => "KbdIllumUp",
            KeyboardCode::Send => "Send",
            KeyboardCode::Reply => "Reply",
            KeyboardCode::ForwardMail => "ForwardMail",
            KeyboardCode::Save => "Save",
            KeyboardCode::Documents => "Documents",
            KeyboardCode::Battery => "Battery",
            KeyboardCode::Bluetooth => "Bluetooth",
            KeyboardCode::Wlan => "Wlan",
            KeyboardCode::Uwb => "Uwb",
            KeyboardCode::Unknown => "Unknown",
        }
    }

    /// The name of the key, as an owned string.
    pub fn to_string(&self) -> (r: String)
        ensures
            r@ == self.spec_label(),
    {
        String::from_str(self.label())
    }

    /// Resolves a key name: the first code of the enumeration with that name, if any.
    pub fn from_name(s: &str) -> (r: Option<KeyboardCode>)
        ensures
            r == Self::spec_from_name(s@),
    {
        let mut i: u8 = 0;
        while i < KEYBOARD_CODE_COUNT
            invariant
                i <= KEYBOARD_CODE_COUNT,
                Self::spec_first_named(s@, 0) == Self::spec_first_named(s@, i as int),
            decreases KEYBOARD_CODE_COUNT - i,
        {
            let k = Self::at(i);
            if str_eq(k.label(), s) {
                return Some(k);
            }
            i = i + 1;
        }
        None
    }
}

/// Whether a key goes down or comes up.
#[derive(Debug, Clone, Copy, PartialEq, Eq, Hash, Structural)]
pub enum KeyboardEventType {
    Press,
    Release,
}

impl KeyboardEventType {
    pub open spec fn spec_label(self) -> Seq<char> {
        match self {
            KeyboardEventType::Press => "Press"@,
            KeyboardEventType::Release => "Release"@,
        }
    }

    pub fn label(&self) -> (r: &'static str)
        ensures
            r@ == self.spec_label(),
    {
        match self {
            KeyboardEventType::Press => "Press",
            KeyboardEventType::Release => "Release",
        }
    }
}

/// An event for the keyboard sink, produced by the mapping engine.
#[derive(Debug, Clone, Copy, PartialEq, Eq, Structural)]
pub enum OutputEvent {
    Keyboard { code: KeyboardCode, event_type: KeyboardEventType },
}

/// The kinds of device an output can be meant for.
#[derive(Debug, Clone, Copy, PartialEq, Eq, Structural)]
pub enum OutputType {
    Keyboard,
    Mouse,
    Gamepad,
}

impl OutputEvent {
    /// A key press of `code`.
    pub open spec fn press(code: KeyboardCode) -> OutputEvent {
        OutputEvent::Keyboard { code, event_type: KeyboardEventType::Press }
    }

    /// A key release of `code`.
    pub open spec fn release(code: KeyboardCode) -> OutputEvent {
        OutputEvent::Keyboard { code, event_type: KeyboardEventType::Release }
    }

    pub open spec fn spec_text(self) -> Seq<char> {
        match self {
            OutputEvent::Keyboard { code, event_type } => "Keyboard: "@ + code.spec_label() + " ("@
                + event_type.spec_label() + ")"@,
        }
    }

    /// A one-line description, such as `Keyboard: S (Press)`.
    pub fn to_string(&self) -> (r: String)
        ensures
            r@ == self.spec_text(),
    {
        match self {
            OutputEvent::Keyboard { code, event_type } => {
                let mut s = String::from_str("Keyboard: ");
                s.append(code.label());
                s.append(" (");
                s.append(event_type.label());
                s.append(")");
                s
            },
        }
    }
}

} // verus!
