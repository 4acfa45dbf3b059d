//! Gamepad identification: known models, vendors, capabilities, and the checks that
//! tell a gamepad apart from other input devices.
use std::collections::HashMap;
use vstd::prelude::*;

use crate::text::{hex4, hex4_string, lower_of, lowercase, seq_contains, str_contains};

verus! {

broadcast use vstd::std_specs::hash::group_hash_axioms;

/// The gamepad models that can be recognized.
#[derive(Debug, Clone, Copy, PartialEq, Eq, Hash, Structural)]
pub enum GamepadType {
    Unknown,
    XboxOne,
    XboxSeries,
    XboxElite,
    DualShock4,
    DualSense,
    Generic,
}

impl GamepadType {
    pub open spec fn spec_label(self) -> Seq<char> {
        match self {
            GamepadType::XboxOne => "Xbox One"@,
            GamepadType::XboxSeries => "Xbox Series X/S"@,
            GamepadType::XboxElite => "Xbox Elite"@,
            GamepadType::DualShock4 => "DualShock 4"@,
            GamepadType::DualSense => "DualSense"@,
            GamepadType::Generic => "Generic"@,
            GamepadType::Unknown => "Unknown"@,
        }
    }

    pub fn label(&self) -> (r: &'static str)
        ensures
            r@ == self.spec_label(),
    {
        match self {
            GamepadType::XboxOne => "Xbox One",
            GamepadType::XboxSeries => "Xbox Series X/S",
            GamepadType::XboxElite => "Xbox Elite",
            GamepadType::DualShock4 => "DualShock 4",
            GamepadType::DualSense => "DualSense",
            GamepadType::Generic => "Generic",
            GamepadType::Unknown => "Unknown",
        }
    }

    pub fn to_string(&self) -> (r: String)
        ensures
            r@ == self.spec_label(),
    {
        String::from_str(self.label())
    }
}

/// Optional features a gamepad can have.
#[derive(Debug, Clone, Copy, PartialEq, Eq, Hash, Structural)]
pub enum GamepadCapability {
    ForceFeedback,
    ElitePaddles,
}

impl GamepadCapability {
    pub open spec fn spec_label(self) -> Seq<char> {
        match self {
            GamepadCapability::ForceFeedback => "Force Feedback"@,
            GamepadCapability::ElitePaddles => "Elite Paddles"@,
        }
    }

    pub fn label(&self) -> (r: &'static str)
        ensures
            r@ == self.spec_label(),
    {
        match self {
            GamepadCapability::ForceFeedback => "Force Feedback",
            GamepadCapability::ElitePaddles => "Elite Paddles",
        }
    }

    pub fn to_string(&self) -> (r: String)
        ensures
            r@ == self.spec_label(),
    {
        String::from_str(self.label())
    }
}

/// The names of a list of capabilities, in order.
pub fn capabilities_to_strings(caps: &[GamepadCapability]) -> (r: Vec<String>)
    ensures
        r@.len() == caps@.len(),
        forall|i: int| 0 <= i < caps@.len() ==> #[trigger] r@[i]@ == caps@[i].spec_label(),
{
    let mut out: Vec<String> = Vec::new();
    let mut i: usize = 0;
    while i < caps.len()
        invariant
            i <= caps@.len(),
            out@.len() == i,
            forall|j: int| 0 <= j < i ==> #[trigger] out@[j]@ == caps@[j].spec_label(),
        decreases caps@.len() - i,
    {
        out.push(caps[i].to_string());
        i = i + 1;
    }
    out
}

/// What is known about a detected gamepad.
#[derive(Debug, Clone)]
pub struct GamepadInfo {
    pub path: String,
    pub name: String,
    pub gamepad_type: GamepadType,
    pub vendor_id: u16,
    pub vendor_name: String,
    pub product_id: u16,
    pub capabilities: Vec<GamepadCapability>,
}

/// A known vendor and product pair and the model it identifies.
struct GamepadSignature {
    vendor_id: u16,
    product_id: u16,
    gamepad_type: GamepadType,
}

/// The known gamepad signatures, in the order they are consulted.
pub open spec fn known_signatures() -> Seq<(u16, u16, GamepadType)> {
    seq![
        (0x045eu16, 0x02ddu16, GamepadType::XboxOne),
        (0x045eu16, 0x02eau16, GamepadType::XboxOne),
        (0x045eu16, 0x02fdu16, GamepadType::XboxOne),
        (0x045eu16, 0x0b12u16, GamepadType::XboxSeries),
        (0x045eu16, 0x0b13u16, GamepadType::XboxSeries),
        (0x045eu16, 0x02e3u16, GamepadType::XboxElite),
        (0x045eu16, 0x0b00u16, GamepadType::XboxElite),
        (0x054cu16, 0x05c4u16, GamepadType::DualShock4),
        (0x054cu16, 0x09ccu16, GamepadType::DualShock4),
        (0x054cu16, 0x0ce6u16, GamepadType::DualSense),
    ]
}

/// The model of the first signature from position `i` on that matches, else `Generic`.
pub open spec fn identify_from(table: Seq<(u16, u16, GamepadType)>, vendor_id: u16, product_id: u16, i: int) -> GamepadType
    decreases table.len() - i,
{
    if i < 0 || i >= table.len() {
        GamepadType::Generic
    } else if table[i].0 == vendor_id && table[i].1 == product_id {
        table[i].2
    } else {
        identify_from(table, vendor_id, product_id, i + 1)
    }
}

fn known_gamepads() -> (r: Vec<GamepadSignature>)
    ensures
        r@.len() == known_signatures().len(),
        forall|i: int|
            0 <= i < r@.len() ==> (#[trigger] r@[i]).vendor_id == known_signatures()[i].0
                && r@[i].product_id == known_signatures()[i].1 && r@[i].gamepad_type
                == known_signatures()[i].2,
{
    vec![
        GamepadSignature { vendor_id: 0x045e, product_id: 0x02dd, gamepad_type: GamepadType::XboxOne },
        GamepadSignature { vendor_id: 0x045e, product_id: 0x02ea, gamepad_type: GamepadType::XboxOne },
        GamepadSignature { vendor_id: 0x045e, product_id: 0x02fd, gamepad_type: GamepadType::XboxOne },
        GamepadSignature { vendor_id: 0x045e, product_id: 0x0b12, gamepad_type: GamepadType::XboxSeries },
        GamepadSignature { vendor_id: 0x045e, product_id: 0x0b13, gamepad_type: GamepadType::XboxSeries },
        GamepadSignature { vendor_id: 0x045e, product_id: 0x02e3, gamepad_type: GamepadType::XboxElite },
        GamepadSignature { vendor_id: 0x045e, product_id: 0x0b00, gamepad_type: GamepadType::XboxElite },
        GamepadSignature { vendor_id: 0x054c, product_id: 0x05c4, gamepad_type: GamepadType::DualShock4 },
        GamepadSignature { vendor_id: 0x054c, product_id: 0x09cc, gamepad_type: GamepadType::DualShock4 },
        GamepadSignature { vendor_id: 0x054c, product_id: 0x0ce6, gamepad_type: GamepadType::DualSense },
    ]
}

/// The model a vendor and product ID identify: the first known signature that matches
/// both, else `Generic`.
pub fn identify_gamepad(vendor_id: u16, product_id: u16) -> (r: GamepadType)
    ensures
        r == identify_from(known_signatures(), vendor_id, product_id, 0),
{
    let table = known_gamepads();
    let mut i: usize = 0;
    while i < table.len()
        invariant
            i <= table@.len(),
            table@.len() == known_signatures().len(),
            forall|j: int|
                0 <= j < table@.len() ==> (#[trigger] table@[j]).vendor_id == known_signatures()[j].0
                    && table@[j].product_id == known_signatures()[j].1 && table@[j].gamepad_type
                    == known_signatures()[j].2,
            identify_from(known_signatures(), vendor_id, product_id, 0) == identify_from(
                known_signatures(),
                vendor_id,
                product_id,
                i as int,
            ),
        decreases table@.len() - i,
    {
        if table[i].vendor_id == vendor_id && table[i].product_id == product_id {
            return table[i].gamepad_type;
        }
        i = i + 1;
    }
    GamepadType::Generic
}

/// The name of a known vendor.
pub open spec fn known_vendor(vendor_id: u16) -> Option<Seq<char>> {
    if vendor_id == 0x045e {
        Some("Microsoft"@)
    } else if vendor_id == 0x054c {
        Some("Sony"@)
    } else if vendor_id == 0x057e {
        Some("Nintendo"@)
    } else if vendor_id == 0x046d {
        Some("Logitech"@)
    } else if vendor_id == 0x0e6f {
        Some("Logic3"@)
    } else if vendor_id == 0x0f0d {
        Some("Hori"@)
    } else if vendor_id == 0x1532 {
        Some("Razer"@)
    } else if vendor_id == 0x2dc8 {
        Some("8BitDo"@)
    } else if vendor_id == 0x28de {
        Some("Valve"@)
    } else {
        None
    }
}

/// The known vendors, keyed by vendor ID.
pub fn get_known_vendor_database() -> (r: HashMap<u16, &'static str>)
    ensures
        forall|id: u16| #[trigger] r@.contains_key(id) <==> known_vendor(id) is Some,
        forall|id: u16| #[trigger] r@.contains_key(id) ==> known_vendor(id) == Some(r@[id]@),
{
    let mut vendors: HashMap<u16, &'static str> = HashMap::new();
    vendors.insert(0x045e, "Microsoft");
    vendors.insert(0x054c, "Sony");
    vendors.insert(0x057e, "Nintendo");
    vendors.insert(0x046d, "Logitech");
    vendors.insert(0x0e6f, "Logic3");
    vendors.insert(0x0f0d, "Hori");
    vendors.insert(0x1532, "Razer");
    vendors.insert(0x2dc8, "8BitDo");
    vendors.insert(0x28de, "Valve");
    vendors
}

/// Kinds of failure while examining a device.
#[derive(Debug, Clone, Copy, PartialEq, Eq, Structural)]
pub enum ErrorType {
    Permission,
    NotFound,
    InvalidDevice,
    Unknown,
}

impl ErrorType {
    pub open spec fn spec_label(self) -> Seq<char> {
        match self {
            ErrorType::Permission => "Permission"@,
            ErrorType::NotFound => "NotFound"@,
            ErrorType::InvalidDevice => "InvalidDevice"@,
            ErrorType::Unknown => "Unknown"@,
        }
    }

    pub fn label(&self) -> (r: &'static str)
        ensures
            r@ == self.spec_label(),
    {
        match self {
            ErrorType::Permission => "Permission",
            ErrorType::NotFound => "NotFound",
            ErrorType::InvalidDevice => "InvalidDevice",
            ErrorType::Unknown => "Unknown",
        }
    }
}

/// A device that could not be examined, and why.
#[derive(Debug, Clone)]
pub struct InputDeviceError {
    pub path: String,
    pub error_type: ErrorType,
    /// The underlying failure, as text.
    pub message: String,
}

impl InputDeviceError {
    pub fn new(path: String, error_type: ErrorType, message: String) -> (r: Self)
        ensures
            r.path == path,
            r.error_type == error_type,
            r.message == message,
    {
        InputDeviceError { path, error_type, message }
    }

    pub open spec fn spec_text(self) -> Seq<char> {
        self.error_type.spec_label() + " error at "@ + self.path@ + ": "@ + self.message@
    }

    /// A one-line description, such as `NotFound error at /dev/input/event3: gone`.
    pub fn to_string(&self) -> (r: String)
        ensures
            r@ == self.spec_text(),
    {
        let mut s = String::from_str(self.error_type.label());
        s.append(" error at ");
        s.append(self.path.as_str());
        s.append(": ");
        s.append(self.message.as_str());
        s
    }
}

/// The outcome of a scan for gamepads: those found, and the devices that failed.
#[derive(Debug, Clone)]
pub struct InputDetectionResult {
    pub gamepad_info: Vec<GamepadInfo>,
    pub errors: Vec<InputDeviceError>,
}

/// Words in a device name that mark it as something other than a gamepad.
pub open spec fn exclude_keywords() -> Seq<Seq<char>> {
    seq![
        "keyboard"@,
        "mouse"@,
        "touchpad"@,
        "power button"@,
        "sleep button"@,
        "hdmi"@,
        "audio"@,
        "speaker"@,
        "headphone"@,
        "microphone"@,
        "line out"@,
        "line in"@,
        "led"@,
        "lamplight"@,
        "rgb"@,
        "system control"@,
        "consumer control"@,
    ]
}

/// Words in a device name that mark it as a likely gamepad.
pub open spec fn controller_keywords() -> Seq<Seq<char>> {
    seq!["controller"@, "gamepad"@, "joystick"@, "pad"@]
}

/// Whether some keyword occurs in a text.
pub open spec fn contains_any(text: Seq<char>, keywords: Seq<Seq<char>>) -> bool {
    exists|i: int| 0 <= i < keywords.len() && seq_contains(text, #[trigger] keywords[i])
}

fn contains_any_of(text: &str, keywords: &Vec<&'static str>) -> (r: bool)
    ensures
        r == contains_any(text@, keywords@.map_values(|k: &'static str| k@)),
{
    let ghost ks = keywords@.map_values(|k: &'static str| k@);
    let mut i: usize = 0;
    while i < keywords.len()
        invariant
            i <= keywords@.len(),
            ks == keywords@.map_values(|k: &'static str| k@),
            forall|j: int| 0 <= j < i ==> !seq_contains(text@, #[trigger] ks[j]),
        decreases keywords@.len() - i,
    {
        if str_contains(text, keywords[i]) {
            assert(seq_contains(text@, ks[i as int]));
            return true;
        }
        i = i + 1;
    }
    false
}

fn exclude_keyword_list() -> (r: Vec<&'static str>)
    ensures
        r@.map_values(|k: &'static str| k@) == exclude_keywords(),
{
    let r = vec![
        "keyboard",
        "mouse",
        "touchpad",
        "power button",
        "sleep button",
        "hdmi",
        "audio",
        "speaker",
        "headphone",
        "microphone",
        "line out",
        "line in",
        "led",
        "lamplight",
        "rgb",
        "system control",
        "consumer control",
    ];
    assert(r@.map_values(|k: &'static str| k@) =~= exclude_keywords());
    r
}

fn controller_keyword_list() -> (r: Vec<&'static str>)
    ensures
        r@.map_values(|k: &'static str| k@) == controller_keywords(),
{
    let r = vec!["controller", "gamepad", "joystick", "pad"];
    assert(r@.map_values(|k: &'static str| k@) =~= controller_keywords());
    r
}

/// Whether an already lower-cased device name contains one of the exclusion keywords
/// (keyboards, mice, audio, lighting, system controls).
pub fn has_excluded_keyword(lower_name: &str) -> (r: bool)
    ensures
        r == contains_any(lower_name@, exclude_keywords()),
{
    contains_any_of(lower_name, &exclude_keyword_list())
}

/// Whether an already lower-cased device name contains a word that marks a controller.
pub fn has_controller_keyword(lower_name: &str) -> (r: bool)
    ensures
        r == contains_any(lower_name@, controller_keywords()),
{
    contains_any_of(lower_name, &controller_keyword_list())
}

/// Whether a device name marks a device that is not a gamepad: its lower-case form
/// contains one of the exclusion keywords.
pub fn is_excluded_by_name(name: &str) -> (r: bool)
    ensures
        r == contains_any(lower_of(name@), exclude_keywords()),
{
    let lower = lowercase(name);
    has_excluded_keyword(lower.as_str())
}

/// Key codes of the gamepad and joystick button ranges.
pub open spec fn is_gamepad_button_code(code: u16) -> bool {
    (0x130 <= code <= 0x13f) || (0x120 <= code <= 0x12f)
}

/// Absolute-axis codes of the two sticks (X, Y, RX, RY).
pub open spec fn is_stick_axis_code(code: u16) -> bool {
    code == 0x00 || code == 0x01 || code == 0x03 || code == 0x04
}

/// Key codes of the four extra paddles.
pub open spec fn is_paddle_code(code: u16) -> bool {
    0x2c0 <= code <= 0x2c3
}

/// How many of the codes are paddle codes.
pub open spec fn paddle_count(codes: Seq<u16>) -> nat
    decreases codes.len(),
{
    if codes.len() == 0 {
        0
    } else {
        paddle_count(codes.drop_last()) + if is_paddle_code(codes.last()) {
            1nat
        } else {
            0nat
        }
    }
}

/// Paddles are reported when at least this many paddle codes are supported.
pub const ELITE_PADDLE_COUNT: usize = 4;

/// The decision that a device is a gamepad, from what it reports: it supports key and
/// absolute-axis events, some key in the gamepad or joystick button range, and some stick
/// axis; and its lower-cased name either looks like a controller's or is not excluded.
pub open spec fn looks_like_gamepad(
    has_key_events: bool,
    has_absolute_events: bool,
    keys: Seq<u16>,
    axes: Seq<u16>,
    lower_name: Seq<char>,
) -> bool {
    &&& has_key_events
    &&& has_absolute_events
    &&& exists|i: int| 0 <= i < keys.len() && is_gamepad_button_code(#[trigger] keys[i])
    &&& exists|i: int| 0 <= i < axes.len() && is_stick_axis_code(#[trigger] axes[i])
    &&& (contains_any(lower_name, controller_keywords()) || !contains_any(
        lower_name,
        exclude_keywords(),
    ))
}

/// Decides whether a device is a gamepad from its supported event kinds, key codes,
/// absolute-axis codes and lower-cased name (see `looks_like_gamepad`).
pub fn is_gamepad_lowercased(
    has_key_events: bool,
    has_absolute_events: bool,
    keys: &Vec<u16>,
    axes: &Vec<u16>,
    lower_name: &str,
) -> (r: bool)
    ensures
        r == looks_like_gamepad(has_key_events, has_absolute_events, keys@, axes@, lower_name@),
{
    if !has_key_events || !has_absolute_events {
        return false;
    }
    let mut has_button = false;
    let mut i: usize = 0;
    while i < keys.len() && !has_button
        invariant
            i <= keys@.len(),
            has_button ==> exists|j: int| 0 <= j < keys@.len() && is_gamepad_button_code(#[trigger] keys@[j]),
            !has_button ==> forall|j: int| 0 <= j < i ==> !is_gamepad_button_code(#[trigger] keys@[j]),
        decreases keys@.len() - i,
    {
        let code = keys[i];
        if (0x130 <= code && code <= 0x13f) || (0x120 <= code && code <= 0x12f) {
            has_button = true;
        }
        i = i + 1;
    }
    if !has_button {
        return false;
    }
    let mut has_axis = false;
    let mut j: usize = 0;
    while j < axes.len() && !has_axis
        invariant
            j <= axes@.len(),
            has_axis ==> exists|k: int| 0 <= k < axes@.len() && is_stick_axis_code(#[trigger] axes@[k]),
            !has_axis ==> forall|k: int| 0 <= k < j ==> !is_stick_axis_code(#[trigger] axes@[k]),
        decreases axes@.len() - j,
    {
        let code = axes[j];
        if code == 0x00 || code == 0x01 || code == 0x03 || code == 0x04 {
            has_axis = true;
        }
        j = j + 1;
    }
    if !has_axis {
        return false;
    }
    if !has_controller_keyword(lower_name) && has_excluded_keyword(lower_name) {
        return false;
    }
    true
}

/// Decides whether a device is a gamepad from its supported event kinds, key codes,
/// absolute-axis codes and name, compared in lower case (see `looks_like_gamepad`).
pub fn is_gamepad(
    has_key_events: bool,
    has_absolute_events: bool,
    keys: &Vec<u16>,
    axes: &Vec<u16>,
    name: &str,
) -> (r: bool)
    ensures
        r == looks_like_gamepad(has_key_events, has_absolute_events, keys@, axes@, lower_of(name@)),
{
    let lower = lowercase(name);
    is_gamepad_lowercased(has_key_events, has_absolute_events, keys, axes, lower.as_str())
}

/// A device has force feedback when it supports force-feedback events and at least one effect.
pub fn has_force_feedback(has_ff_events: bool, effect_count: usize) -> (r: bool)
    ensures
        r == (has_ff_events && effect_count > 0),
{
    has_ff_events && effect_count != 0
}

/// A device has Elite paddles when it supports at least four paddle key codes.
pub fn has_elite_paddles(keys: &Vec<u16>) -> (r: bool)
    ensures
        r == (paddle_count(keys@) >= ELITE_PADDLE_COUNT),
{
    let mut count: usize = 0;
    let mut i: usize = 0;
    assert(keys@.take(0) =~= Seq::<u16>::empty());
    while i < keys.len()
        invariant
            i <= keys@.len(),
            count == paddle_count(keys@.take(i as int)),
            count <= i,
        decreases keys@.len() - i,
    {
        assert(keys@.take(i + 1).drop_last() =~= keys@.take(i as int));
        let code = keys[i];
        if 0x2c0 <= code && code <= 0x2c3 {
            count = count + 1;
        }
        i = i + 1;
    }
    assert(keys@.take(keys@.len() as int) =~= keys@);
    count >= ELITE_PADDLE_COUNT
}

/// The vendor name shown for a vendor ID: the known name, else `Unknown (0xNNNN)` with
/// four upper-case hex digits.
pub open spec fn vendor_label(vendor_id: u16) -> Seq<char> {
    match known_vendor(vendor_id) {
        Some(n) => n,
        None => "Unknown (0x"@ + hex4(vendor_id) + ")"@,
    }
}

/// The vendor name shown for a vendor ID (see `vendor_label`).
pub fn vendor_name_of(vendor_id: u16) -> (r: String)
    ensures
        r@ == vendor_label(vendor_id),
{
    let vendors = get_known_vendor_database();
    match vendors.get(&vendor_id) {
        Some(n) => String::from_str(*n),
        None => {
            let mut s = String::from_str("Unknown (0x");
            let digits = hex4_string(vendor_id);
            s.append(digits.as_str());
            s.append(")");
            s
        },
    }
}

/// The capabilities list: force feedback first, then paddles, each when present.
pub open spec fn capabilities_of(force_feedback: bool, paddles: bool) -> Seq<GamepadCapability> {
    (if force_feedback {
        seq![GamepadCapability::ForceFeedback]
    } else {
        Seq::empty()
    }) + (if paddles {
        seq![GamepadCapability::ElitePaddles]
    } else {
        Seq::empty()
    })
}

/// Everything known about a gamepad, from what its device reports: path and name, vendor
/// and product IDs, whether it supports force-feedback events and how many effects, and
/// its key codes.
pub fn extract_gamepad_info(
    path: &str,
    name: &str,
    vendor_id: u16,
    product_id: u16,
    has_ff_events: bool,
    ff_effect_count: usize,
    keys: &Vec<u16>,
) -> (r: GamepadInfo)
    ensures
        r.path@ == path@,
        r.name@ == name@,
        r.gamepad_type == identify_from(known_signatures(), vendor_id, product_id, 0),
        r.vendor_id == vendor_id,
        r.vendor_name@ == vendor_label(vendor_id),
        r.product_id == product_id,
        r.capabilities@ == capabilities_of(
            has_ff_events && ff_effect_count > 0,
            paddle_count(keys@) >= ELITE_PADDLE_COUNT,
        ),
{
    let mut capabilities: Vec<GamepadCapability> = Vec::new();
    if has_force_feedback(has_ff_events, ff_effect_count) {
        capabilities.push(GamepadCapability::ForceFeedback);
    }
    if has_elite_paddles(keys) {
        capabilities.push(GamepadCapability::ElitePaddles);
    }
    assert(capabilities@ =~= capabilities_of(
        has_ff_events && ff_effect_count > 0,
        paddle_count(keys@) >= ELITE_PADDLE_COUNT,
    ));
    GamepadInfo {
        path: String::from_str(path),
        name: String::from_str(name),
        gamepad_type: identify_gamepad(vendor_id, product_id),
        vendor_id,
        vendor_name: vendor_name_of(vendor_id),
        product_id,
        capabilities,
    }
}

} // verus!
