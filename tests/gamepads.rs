use std::io::{Error, ErrorKind};

use blazeremap::linux_codes::{
    absolute_axis_to_axis_code, key_to_button_code, keyboard_code_to_evdev_key,
};
use blazeremap::{AxisCode, ButtonCode, KeyboardCode};

use blazeremap::{
    capabilities_to_strings, extract_gamepad_info, get_known_vendor_database, identify_gamepad,
    is_excluded_by_name, is_gamepad, write_results, ErrorType, GamepadCapability, GamepadInfo,
    GamepadType, InputDetectionResult, InputDeviceError,
};

#[test]
fn database_test_identify_xbox_one() {
    assert_eq!(identify_gamepad(0x045e, 0x02fd), GamepadType::XboxOne);
}

#[test]
fn database_test_identify_dualshock4() {
    assert_eq!(identify_gamepad(0x054c, 0x09cc), GamepadType::DualShock4);
}

#[test]
fn database_test_identify_unknown() {
    assert_eq!(identify_gamepad(0xFFFF, 0xFFFF), GamepadType::Generic);
}

#[test]
fn database_test_vendor_database() {
    let vendors = get_known_vendor_database();
    assert_eq!(vendors.get(&0x045e), Some(&"Microsoft"));
    assert_eq!(vendors.get(&0x054c), Some(&"Sony"));
}

#[test]
fn vendor_database_has_nine_vendors() {
    let vendors = get_known_vendor_database();
    assert_eq!(vendors.len(), 9);
    assert_eq!(vendors.get(&0x2dc8), Some(&"8BitDo"));
    assert_eq!(vendors.get(&0x0001), None);
}

#[test]
fn identify_other_models() {
    assert_eq!(identify_gamepad(0x045e, 0x0b12), GamepadType::XboxSeries);
    assert_eq!(identify_gamepad(0x045e, 0x0b00), GamepadType::XboxElite);
    assert_eq!(identify_gamepad(0x054c, 0x0ce6), GamepadType::DualSense);
    assert_eq!(identify_gamepad(0x054c, 0x02fd), GamepadType::Generic);
}

#[test]
fn test_gamepad_type_display() {
    assert_eq!(GamepadType::XboxOne.to_string(), "Xbox One");
    assert_eq!(GamepadType::DualShock4.to_string(), "DualShock 4");
}

#[test]
fn types_test_capability_display() {
    assert_eq!(GamepadCapability::ForceFeedback.to_string(), "Force Feedback");
}

#[test]
fn test_capabilities_to_strings() {
    let caps = vec![GamepadCapability::ForceFeedback, GamepadCapability::ElitePaddles];
    let strings = capabilities_to_strings(&caps);
    assert_eq!(strings, vec!["Force Feedback", "Elite Paddles"]);
}

#[test]
fn test_is_excluded_by_name() {
    assert!(is_excluded_by_name("USB Keyboard"));
    assert!(is_excluded_by_name("Wireless Mouse"));
    assert!(is_excluded_by_name("HDMI Audio"));
    assert!(is_excluded_by_name("System Control"));

    assert!(!is_excluded_by_name("Xbox Wireless Controller"));
    assert!(!is_excluded_by_name("DualSense Wireless Controller"));
    assert!(!is_excluded_by_name("Generic Gamepad"));
}

#[test]
fn gamepad_decision_from_device_facts() {
    let keys = vec![0x001e, 0x130, 0x131];
    let axes = vec![0x00, 0x01, 0x10];
    assert!(is_gamepad(true, true, &keys, &axes, "Xbox Wireless Controller"));
    assert!(!is_gamepad(false, true, &keys, &axes, "Xbox Wireless Controller"));
    assert!(!is_gamepad(true, false, &keys, &axes, "Xbox Wireless Controller"));
    assert!(!is_gamepad(true, true, &vec![0x001e], &axes, "Xbox Wireless Controller"));
    assert!(!is_gamepad(true, true, &keys, &vec![0x10, 0x11], "Xbox Wireless Controller"));
    // Excluded by name unless the name looks like a controller's.
    assert!(!is_gamepad(true, true, &keys, &axes, "Consumer Control"));
    assert!(is_gamepad(true, true, &keys, &axes, "Keyboard Gamepad Combo"));
    // Joystick button range counts too.
    assert!(is_gamepad(true, true, &vec![0x120], &vec![0x04], "Flight Stick"));
}

fn make_test_controller(name: &str) -> GamepadInfo {
    GamepadInfo {
        path: "/dev/input/event99".to_string(),
        name: name.to_string(),
        gamepad_type: GamepadType::DualShock4,
        vendor_id: 0x054C,
        vendor_name: "Sony".to_string(),
        product_id: 0x09CC,
        capabilities: vec![GamepadCapability::ForceFeedback],
    }
}

#[test]
fn test_display_no_controllers() {
    let result = InputDetectionResult { gamepad_info: vec![], errors: vec![] };
    let text = write_results(&result, false);
    assert!(text.contains("No controllers found"));
}

#[test]
fn test_display_one_controller() {
    let result = InputDetectionResult {
        gamepad_info: vec![make_test_controller("Test Controller")],
        errors: vec![],
    };
    let text = write_results(&result, false);

    assert!(text.contains("Found 1 controller(s)"));
    assert!(text.contains("Test Controller"));
    assert!(text.contains("DualShock 4"));
    assert!(text.contains("Sony"));
    assert!(text.contains("054C"));
    assert!(text.contains("Force Feedback"));
}

#[test]
fn test_display_multiple_controllers() {
    let result = InputDetectionResult {
        gamepad_info: vec![make_test_controller("Controller 1"), make_test_controller("Controller 2")],
        errors: vec![],
    };
    let text = write_results(&result, false);

    assert!(text.contains("Found 2 controller(s)"));
    assert!(text.contains("[0] Controller 1"));
    assert!(text.contains("[1] Controller 2"));
}

#[test]
fn test_verbose_mode() {
    let result = InputDetectionResult {
        gamepad_info: vec![make_test_controller("Test Controller")],
        errors: vec![],
    };

    let text = write_results(&result, false);
    assert!(!text.contains("Verbose Information"));

    let text = write_results(&result, true);
    assert!(text.contains("Verbose Information"));
    assert!(text.contains("Full path: /dev/input/event99"));
}

#[test]
fn test_tree_formatting() {
    let result =
        InputDetectionResult { gamepad_info: vec![make_test_controller("Test")], errors: vec![] };
    let text = write_results(&result, false);

    assert!(text.contains("├─"));
    assert!(text.contains("└─"));
    assert!(text.contains("│"));
}

#[test]
fn report_exact_text() {
    let mut info = make_test_controller("Pad");
    info.capabilities.push(GamepadCapability::ElitePaddles);
    let result = InputDetectionResult { gamepad_info: vec![info], errors: vec![] };
    let expected = "Found 1 controller(s):\n\n\
[0] Pad (/dev/input/event99)\n \
├─ Type: DualShock 4\n \
├─ Vendor:\n \
│  ├─ ID: 054C\n \
│  └─ Name: Sony\n \
├─ Product ID: 09CC\n \
└─ Capabilities:\n    \
├─ Force Feedback\n    \
└─ Elite Paddles\n\n";
    assert_eq!(write_results(&result, false), expected);
}

#[test]
fn report_lists_errors_when_nothing_found() {
    let result = InputDetectionResult {
        gamepad_info: vec![],
        errors: vec![InputDeviceError::new(
            "/dev/input/event5".to_string(),
            ErrorType::Permission,
            "permission denied".to_string(),
        )],
    };
    assert_eq!(
        write_results(&result, false),
        "No controllers found.\n\nErrors encountered:\n  • Permission error at /dev/input/event5: permission denied\n"
    );
}

#[test]
fn report_without_capabilities() {
    let mut info = make_test_controller("Bare");
    info.capabilities.clear();
    let result = InputDetectionResult { gamepad_info: vec![info], errors: vec![] };
    assert!(write_results(&result, false).contains("    └─ None detected\n"));
}

#[test]
fn test_linux_controller_construction() {
    let _info = GamepadInfo {
        path: "/dev/input/event3".to_string(),
        name: "Test Controller".to_string(),
        gamepad_type: GamepadType::XboxOne,
        vendor_id: 0x045e,
        vendor_name: "Microsoft".to_string(),
        product_id: 0x02ea,
        capabilities: vec![GamepadCapability::ForceFeedback],
    };
}

#[test]
fn test_has_force_feedback() {
    assert!(blazeremap::gamepad::has_force_feedback(true, 3));
    assert!(!blazeremap::gamepad::has_force_feedback(true, 0));
    assert!(!blazeremap::gamepad::has_force_feedback(false, 3));
}

#[test]
fn test_has_elite_paddles() {
    assert!(blazeremap::gamepad::has_elite_paddles(&vec![0x130, 0x2c0, 0x2c1, 0x2c2, 0x2c3]));
    assert!(!blazeremap::gamepad::has_elite_paddles(&vec![0x2c0, 0x2c1, 0x2c2, 0x2c4]));
}

#[test]
fn test_extract_controller_info() {
    let info = extract_gamepad_info(
        "/dev/input/event7",
        "Xbox Elite Wireless Controller",
        0x045e,
        0x0b00,
        true,
        2,
        &vec![0x130, 0x2c0, 0x2c1, 0x2c2, 0x2c3],
    );
    assert_eq!(info.path, "/dev/input/event7");
    assert_eq!(info.gamepad_type, GamepadType::XboxElite);
    assert_eq!(info.vendor_name, "Microsoft");
    assert_eq!(info.capabilities, vec![GamepadCapability::ForceFeedback, GamepadCapability::ElitePaddles]);

    let unknown = extract_gamepad_info("/dev/input/event8", "Mystery", 0x1a2b, 0x0001, false, 0, &vec![]);
    assert_eq!(unknown.vendor_name, "Unknown (0x1A2B)");
    assert_eq!(unknown.gamepad_type, GamepadType::Generic);
    assert!(unknown.capabilities.is_empty());
}

#[test]
fn test_controller_trait_methods() {
    let info = make_test_controller("Trait");
    assert_eq!(info.name, "Trait");
}

#[test]
fn test_device_disconnect_error_handling() {
    let enodev_error = Error::from_raw_os_error(19);
    assert_eq!(enodev_error.raw_os_error(), Some(19));

    let other_error = Error::new(ErrorKind::Other, "Some other error");
    assert_ne!(other_error.raw_os_error(), Some(19));
}

#[test]
fn test_all_button_code_mappings() {
    assert_eq!(key_to_button_code(evdev::KeyCode::BTN_SOUTH.code()), ButtonCode::South);
    assert_eq!(key_to_button_code(evdev::KeyCode::BTN_EAST.code()), ButtonCode::East);
    assert_eq!(key_to_button_code(evdev::KeyCode::BTN_NORTH.code()), ButtonCode::North);
    assert_eq!(key_to_button_code(evdev::KeyCode::BTN_WEST.code()), ButtonCode::West);
    assert_eq!(key_to_button_code(evdev::KeyCode::BTN_START.code()), ButtonCode::Start);
    assert_eq!(key_to_button_code(evdev::KeyCode::BTN_SELECT.code()), ButtonCode::Select);
    assert_eq!(key_to_button_code(evdev::KeyCode::BTN_MODE.code()), ButtonCode::Mode);
}

#[test]
fn test_all_keyboard_code_to_evdev_mappings() {
    assert_eq!(keyboard_code_to_evdev_key(KeyboardCode::Escape), evdev::KeyCode::KEY_ESC.code());
    assert_eq!(keyboard_code_to_evdev_key(KeyboardCode::A), evdev::KeyCode::KEY_A.code());
    assert_eq!(keyboard_code_to_evdev_key(KeyboardCode::Num1), evdev::KeyCode::KEY_1.code());
    assert_eq!(keyboard_code_to_evdev_key(KeyboardCode::Enter), evdev::KeyCode::KEY_ENTER.code());
    assert_eq!(
        keyboard_code_to_evdev_key(KeyboardCode::LeftControl),
        evdev::KeyCode::KEY_LEFTCTRL.code()
    );
    assert_eq!(keyboard_code_to_evdev_key(KeyboardCode::F1), evdev::KeyCode::KEY_F1.code());
    assert_eq!(
        keyboard_code_to_evdev_key(KeyboardCode::Unknown),
        evdev::KeyCode::KEY_RESERVED.code()
    );
}

#[test]
fn every_keyboard_code_has_its_evdev_key() {
    let mut i: u8 = 0;
    while i < blazeremap::keyboard::KEYBOARD_CODE_COUNT {
        let key = KeyboardCode::at(i);
        let code = keyboard_code_to_evdev_key(key);
        if key != KeyboardCode::Unknown && key != KeyboardCode::Reserved {
            assert_ne!(code, 0, "{:?}", key);
        }
        i += 1;
    }
    assert_eq!(keyboard_code_to_evdev_key(KeyboardCode::Space), evdev::KeyCode::KEY_SPACE.code());
    assert_eq!(keyboard_code_to_evdev_key(KeyboardCode::Uwb), evdev::KeyCode::KEY_UWB.code());
}

#[test]
fn test_all_axis_code_mappings() {
    assert_eq!(absolute_axis_to_axis_code(evdev::AbsoluteAxisCode::ABS_X.0), AxisCode::LeftX);
    assert_eq!(absolute_axis_to_axis_code(evdev::AbsoluteAxisCode::ABS_Y.0), AxisCode::LeftY);
    assert_eq!(absolute_axis_to_axis_code(evdev::AbsoluteAxisCode::ABS_RX.0), AxisCode::RightX);
    assert_eq!(absolute_axis_to_axis_code(evdev::AbsoluteAxisCode::ABS_RY.0), AxisCode::RightY);
    assert_eq!(absolute_axis_to_axis_code(evdev::AbsoluteAxisCode::ABS_Z.0), AxisCode::LeftTrigger);
    assert_eq!(
        absolute_axis_to_axis_code(evdev::AbsoluteAxisCode::ABS_RZ.0),
        AxisCode::RightTrigger
    );
    assert_eq!(absolute_axis_to_axis_code(evdev::AbsoluteAxisCode::ABS_HAT0X.0), AxisCode::DPadX);
    assert_eq!(absolute_axis_to_axis_code(evdev::AbsoluteAxisCode::ABS_HAT0Y.0), AxisCode::DPadY);
}

#[test]
fn test_unknown_codes_map_to_unknown() {
    assert_eq!(key_to_button_code(evdev::KeyCode::KEY_A.code()), ButtonCode::Unknown);
    assert_eq!(absolute_axis_to_axis_code(evdev::AbsoluteAxisCode::ABS_PRESSURE.0), AxisCode::Unknown);
}
