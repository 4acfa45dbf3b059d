use std::time::{Duration, Instant, SystemTime, UNIX_EPOCH};

use blazeremap::{
    axis_and_direction_to_string, AxisCode, AxisDirection, ButtonCode, InputEvent, TimeAnchor,
};

#[test]
fn types_test_button_press_event() {
    let event = InputEvent::button_press(ButtonCode::South);
    assert!(event.is_button_pressed());
    assert!(!event.is_button_released());
    assert!(!event.is_axis_moved());
    assert!(!event.is_in_deadzone());
}

#[test]
fn types_test_button_release_event() {
    let event = InputEvent::button_release(ButtonCode::South);
    assert!(!event.is_button_pressed());
    assert!(event.is_button_released());
    assert!(!event.is_axis_moved());
}

#[test]
fn types_test_axis_event() {
    let event = InputEvent::axis_move(AxisCode::LeftX, 15234);
    assert!(!event.is_button_pressed());
    assert!(!event.is_button_released());
    assert!(event.is_axis_moved());
}

#[test]
fn types_test_timestamp_ordering() {
    let event1 = InputEvent::button_press(ButtonCode::South);
    let event2 = InputEvent::button_press(ButtonCode::East);
    assert!(event2.timestamp() >= event1.timestamp());
}

#[test]
fn types_test_timestamp_with_test_helper() {
    let base = Instant::now();
    let ts1 = base;
    let ts2 = base + Duration::from_millis(10);

    let press = InputEvent::button_press_at(ButtonCode::South, ts1);
    let release = InputEvent::button_release_at(ButtonCode::South, ts2);

    let latency = release.timestamp().duration_since(press.timestamp());
    assert_eq!(latency, Duration::from_millis(10));
}

#[test]
fn types_test_copy_trait() {
    let event1 = InputEvent::button_press(ButtonCode::South);
    let event2 = event1;
    assert!(event1.is_button_pressed());
    assert!(event2.is_button_pressed());
}

#[test]
fn types_test_button_code_display() {
    assert_eq!(ButtonCode::South.to_string(), "South");
    assert_eq!(ButtonCode::East.to_string(), "East");
    assert_eq!(ButtonCode::North.to_string(), "North");
    assert_eq!(ButtonCode::West.to_string(), "West");
    assert_eq!(ButtonCode::LeftShoulder.to_string(), "Left Shoulder");
    assert_eq!(ButtonCode::RightShoulder.to_string(), "Right Shoulder");
    assert_eq!(ButtonCode::LeftTrigger.to_string(), "Left Trigger");
    assert_eq!(ButtonCode::RightTrigger.to_string(), "Right Trigger");
    assert_eq!(ButtonCode::LeftStick.to_string(), "Left Stick");
    assert_eq!(ButtonCode::RightStick.to_string(), "Right Stick");
}

#[test]
fn types_test_axis_code_display() {
    assert_eq!(AxisCode::LeftX.to_string(), "Left X");
    assert_eq!(AxisCode::LeftY.to_string(), "Left Y");
    assert_eq!(AxisCode::RightX.to_string(), "Right X");
    assert_eq!(AxisCode::RightY.to_string(), "Right Y");
    assert_eq!(AxisCode::LeftTrigger.to_string(), "Left Trigger");
    assert_eq!(AxisCode::RightTrigger.to_string(), "Right Trigger");
    assert_eq!(AxisCode::DPadX.to_string(), "DPad X");
    assert_eq!(AxisCode::DPadY.to_string(), "DPad Y");
}

#[test]
fn types_test_input_event_display() {
    let button_event = InputEvent::button_press(ButtonCode::South);
    assert_eq!(button_event.to_string(), "South (pressed)");

    let release_event = InputEvent::button_release(ButtonCode::South);
    assert_eq!(release_event.to_string(), "South (released)");

    let axis_event = InputEvent::axis_move(AxisCode::LeftX, 12345);
    assert_eq!(axis_event.to_string(), "Left X: 12345");

    let sync_event = InputEvent::sync();
    assert_eq!(sync_event.to_string(), "Sync");
}

#[test]
fn negative_axis_value_display() {
    let axis_event = InputEvent::axis_move(AxisCode::DPadY, -1);
    assert_eq!(axis_event.to_string(), "DPad Y: -1");
}

#[test]
fn types_test_is_in_deadzone() {
    let center_event = InputEvent::axis_move(AxisCode::LeftX, 128);
    assert!(center_event.is_in_deadzone());

    let near_center_event = InputEvent::axis_move(AxisCode::LeftX, 125);
    assert!(near_center_event.is_in_deadzone());

    let boundary_low = InputEvent::axis_move(AxisCode::LeftX, 118);
    assert!(boundary_low.is_in_deadzone());

    let boundary_high = InputEvent::axis_move(AxisCode::LeftX, 138);
    assert!(boundary_high.is_in_deadzone());

    let outside_low = InputEvent::axis_move(AxisCode::LeftX, 110);
    assert!(!outside_low.is_in_deadzone());

    let outside_high = InputEvent::axis_move(AxisCode::LeftX, 150);
    assert!(!outside_high.is_in_deadzone());

    let trigger_center = InputEvent::axis_move(AxisCode::LeftTrigger, 128);
    assert!(!trigger_center.is_in_deadzone());

    let button_event = InputEvent::button_press(ButtonCode::South);
    assert!(!button_event.is_in_deadzone());

    let sync_event = InputEvent::sync();
    assert!(!sync_event.is_in_deadzone());
}

#[test]
fn types_test_deadzone_boundary_cases() {
    let deadzone_min = InputEvent::axis_move(AxisCode::LeftX, 128 - 10);
    assert!(deadzone_min.is_in_deadzone());

    let deadzone_max = InputEvent::axis_move(AxisCode::LeftX, 128 + 10);
    assert!(deadzone_max.is_in_deadzone());

    let just_outside_min = InputEvent::axis_move(AxisCode::LeftX, 128 - 11);
    assert!(!just_outside_min.is_in_deadzone());

    let just_outside_max = InputEvent::axis_move(AxisCode::LeftX, 128 + 11);
    assert!(!just_outside_max.is_in_deadzone());
}

#[test]
fn deadzone_never_applies_to_triggers() {
    for value in [i32::MIN, -1, 0, 118, 128, 138, 255, i32::MAX] {
        assert!(!InputEvent::axis_move(AxisCode::LeftTrigger, value).is_in_deadzone());
        assert!(!InputEvent::axis_move(AxisCode::RightTrigger, value).is_in_deadzone());
    }
}

#[test]
fn deadzone_extreme_values_do_not_overflow() {
    assert!(!InputEvent::axis_move(AxisCode::RightY, i32::MIN).is_in_deadzone());
    assert!(!InputEvent::axis_move(AxisCode::RightY, i32::MAX).is_in_deadzone());
}

#[test]
fn test_axis_and_direction_to_string() {
    assert_eq!(axis_and_direction_to_string(AxisCode::DPadX, AxisDirection::Negative), "DPad Left");
    assert_eq!(axis_and_direction_to_string(AxisCode::DPadX, AxisDirection::Positive), "DPad Right");
    assert_eq!(axis_and_direction_to_string(AxisCode::DPadY, AxisDirection::Negative), "DPad Up");
    assert_eq!(axis_and_direction_to_string(AxisCode::DPadY, AxisDirection::Positive), "DPad Down");
    assert_eq!(
        axis_and_direction_to_string(AxisCode::LeftX, AxisDirection::Negative),
        "Left X Left"
    );
    assert_eq!(
        axis_and_direction_to_string(AxisCode::LeftX, AxisDirection::Positive),
        "Left X Right"
    );
    assert_eq!(
        axis_and_direction_to_string(AxisCode::RightX, AxisDirection::Negative),
        "Right X Left"
    );
    assert_eq!(
        axis_and_direction_to_string(AxisCode::RightX, AxisDirection::Positive),
        "Right X Right"
    );
    assert_eq!(axis_and_direction_to_string(AxisCode::LeftY, AxisDirection::Negative), "Left Y Up");
    assert_eq!(
        axis_and_direction_to_string(AxisCode::LeftY, AxisDirection::Positive),
        "Left Y Down"
    );
    assert_eq!(
        axis_and_direction_to_string(AxisCode::RightY, AxisDirection::Negative),
        "Right Y Up"
    );
    assert_eq!(
        axis_and_direction_to_string(AxisCode::RightY, AxisDirection::Positive),
        "Right Y Down"
    );
    assert_eq!(
        axis_and_direction_to_string(AxisCode::LeftTrigger, AxisDirection::Negative),
        "Left Trigger"
    );
    assert_eq!(
        axis_and_direction_to_string(AxisCode::RightTrigger, AxisDirection::Positive),
        "Right Trigger"
    );
    assert_eq!(axis_and_direction_to_string(AxisCode::Unknown, AxisDirection::Negative), "Unknown");
}

#[test]
fn code_names_resolve() {
    assert_eq!(ButtonCode::from_name("Left Shoulder"), ButtonCode::LeftShoulder);
    assert_eq!(ButtonCode::from_name("LeftShoulder"), ButtonCode::LeftShoulder);
    assert_eq!(ButtonCode::from_name("Misc"), ButtonCode::Misc1);
    assert_eq!(ButtonCode::from_name("Misc1"), ButtonCode::Misc1);
    assert_eq!(ButtonCode::from_name("Nothing"), ButtonCode::Unknown);
    assert_eq!(ButtonCode::from_name(""), ButtonCode::Unknown);
    assert_eq!(AxisCode::from_name("DPad Y"), AxisCode::DPadY);
    assert_eq!(AxisCode::from_name("DPadX"), AxisCode::DPadX);
    assert_eq!(AxisCode::from_name("dpadx"), AxisCode::Unknown);
    assert_eq!(AxisDirection::from_name("Negative"), Some(AxisDirection::Negative));
    assert_eq!(AxisDirection::from_name("Up"), None);
}

fn nanos_since_epoch(t: SystemTime) -> i64 {
    t.duration_since(UNIX_EPOCH).unwrap().as_nanos() as i64
}

#[test]
fn test_time_anchor_conversion() {
    let anchor_sys = nanos_since_epoch(SystemTime::now());
    let anchor_inst: i64 = 5_000_000_000;
    let anchor = TimeAnchor::new(anchor_sys, anchor_inst);

    let future_sys = anchor_sys + Duration::from_millis(100).as_nanos() as i64;
    let future_inst = anchor.to_instant(future_sys);
    assert!(future_inst > anchor_inst as i128);
    assert_eq!(future_inst - anchor_inst as i128, Duration::from_millis(100).as_nanos() as i128);

    let past_sys = anchor_sys - Duration::from_millis(50).as_nanos() as i64;
    let past_inst = anchor.to_instant(past_sys);
    assert!(past_inst < anchor_inst as i128);
    assert_eq!(anchor_inst as i128 - past_inst, Duration::from_millis(50).as_nanos() as i128);

    assert_eq!(anchor.to_instant(anchor_sys), anchor_inst as i128);
}

#[test]
fn time_anchor_handles_readings_before_the_anchor_instant() {
    let anchor = TimeAnchor::new(1_000, 10);
    assert_eq!(anchor.to_instant(970), -20);
    assert_eq!(TimeAnchor::new(i64::MIN, i64::MAX).to_instant(i64::MAX), i64::MAX as i128 * 3 + 1);
}
