use std::time::{Duration, Instant};

use blazeremap::{
    AxisCode, AxisDirection, ButtonCode, EventLoop, InputEvent, KeyboardCode, KeyboardEventType,
    LatencyStats, LoopAction, Mapping, MappingEngine, MappingError, MappingRule, OutputEvent,
    Profile, TargetType,
};

fn press(code: KeyboardCode) -> OutputEvent {
    OutputEvent::Keyboard { code, event_type: KeyboardEventType::Press }
}

fn release(code: KeyboardCode) -> OutputEvent {
    OutputEvent::Keyboard { code, event_type: KeyboardEventType::Release }
}

#[test]
fn test_mapping_engine_hardcoded_press() {
    let mut engine = MappingEngine::new_hardcoded();
    let input = InputEvent::button_press(ButtonCode::South);

    let result = engine.process(&input);

    assert_eq!(result.len(), 1);
    let OutputEvent::Keyboard { code, event_type } = result[0];
    assert_eq!(code, KeyboardCode::S);
    assert_eq!(event_type, KeyboardEventType::Press);
}

#[test]
fn test_mapping_engine_hardcoded_release() {
    let mut engine = MappingEngine::new_hardcoded();
    let input = InputEvent::button_release(ButtonCode::East);

    let result = engine.process(&input);

    assert_eq!(result.len(), 1);
    let OutputEvent::Keyboard { code, event_type } = result[0];
    assert_eq!(code, KeyboardCode::D);
    assert_eq!(event_type, KeyboardEventType::Release);
}

#[test]
fn test_unmapped_button() {
    let mut engine = MappingEngine::new_hardcoded();
    let input = InputEvent::button_press(ButtonCode::North);

    let result = engine.process(&input);
    assert!(result.is_empty());
}

#[test]
fn test_axis_passthrough_returns_none() {
    let mut engine = MappingEngine::new_hardcoded();
    let input = InputEvent::axis_move(AxisCode::LeftX, 100);

    let result = engine.process(&input);
    assert!(result.is_empty());
}

#[test]
fn test_sync_returns_none() {
    let mut engine = MappingEngine::new_hardcoded();
    let input = InputEvent::sync();

    let result = engine.process(&input);
    assert!(result.is_empty());
}

#[test]
fn test_dpad_up_press() {
    let mut engine = MappingEngine::new_hardcoded();
    let input = InputEvent::axis_move(AxisCode::DPadY, -1);

    let events = engine.process(&input);
    assert_eq!(events.len(), 1);

    let OutputEvent::Keyboard { code, event_type } = events[0];
    assert_eq!(code, KeyboardCode::Up);
    assert_eq!(event_type, KeyboardEventType::Press);
}

#[test]
fn test_dpad_release() {
    let mut engine = MappingEngine::new_hardcoded();

    engine.process(&InputEvent::axis_move(AxisCode::DPadY, -1));

    let events = engine.process(&InputEvent::axis_move(AxisCode::DPadY, 0));

    assert_eq!(events.len(), 1);
    let OutputEvent::Keyboard { code, event_type } = events[0];
    assert_eq!(code, KeyboardCode::Up);
    assert_eq!(event_type, KeyboardEventType::Release);
}

#[test]
fn test_dpad_direction_change() {
    let mut engine = MappingEngine::new_hardcoded();

    engine.process(&InputEvent::axis_move(AxisCode::DPadY, -1));

    let events = engine.process(&InputEvent::axis_move(AxisCode::DPadY, 1));

    assert_eq!(events.len(), 2);

    let OutputEvent::Keyboard { code: code1, event_type: type1 } = events[0];
    assert_eq!(code1, KeyboardCode::Up);
    assert_eq!(type1, KeyboardEventType::Release);

    let OutputEvent::Keyboard { code: code2, event_type: type2 } = events[1];
    assert_eq!(code2, KeyboardCode::Down);
    assert_eq!(type2, KeyboardEventType::Press);
}

#[test]
fn test_load_from_profile() {
    let profile = Profile::default_profile();
    let engine = MappingEngine::load_from_profile(&profile).unwrap();
    let table = engine.rule_table();

    let buttons = table.iter().filter(|r| matches!(r, MappingRule::ButtonToKey { .. })).count();
    let axes = table.iter().filter(|r| matches!(r, MappingRule::AxisDirectionToKey { .. })).count();
    assert_eq!(buttons, 6);
    assert_eq!(axes, 4);

    assert!(table.contains(&MappingRule::button_to_key(ButtonCode::North, KeyboardCode::W)));
    assert!(table.contains(&MappingRule::axis_direction_to_key(
        AxisCode::DPadY,
        AxisDirection::Negative,
        KeyboardCode::Up
    )));
}

fn one_entry_profile(mapping: Mapping) -> Profile {
    Profile {
        name: "Invalid".to_string(),
        description: "Invalid profile".to_string(),
        game_name: None,
        mappings: vec![mapping],
        settings: Default::default(),
    }
}

#[test]
fn test_load_from_invalid_profile() {
    let profile = one_entry_profile(Mapping {
        source_name: "DPadX".to_string(),
        source_direction: Some("Invalid".to_string()),
        target_type: TargetType::Keyboard,
        target_name: "A".to_string(),
    });

    let result = MappingEngine::load_from_profile(&profile);
    assert!(result.is_err());
}

#[test]
fn each_resolution_error_has_its_input() {
    let unknown_source = one_entry_profile(Mapping {
        source_name: "Shoulder".to_string(),
        source_direction: None,
        target_type: TargetType::Keyboard,
        target_name: "A".to_string(),
    });
    assert_eq!(
        MappingEngine::load_from_profile(&unknown_source).err(),
        Some(MappingError::UnknownSource)
    );

    let unknown_direction = one_entry_profile(Mapping {
        source_name: "DPadX".to_string(),
        source_direction: Some("Invalid".to_string()),
        target_type: TargetType::Keyboard,
        target_name: "A".to_string(),
    });
    assert_eq!(
        MappingEngine::load_from_profile(&unknown_direction).err(),
        Some(MappingError::UnknownDirection)
    );

    let unknown_target = one_entry_profile(Mapping {
        source_name: "South".to_string(),
        source_direction: None,
        target_type: TargetType::Keyboard,
        target_name: "NoSuchKey".to_string(),
    });
    assert_eq!(
        MappingEngine::load_from_profile(&unknown_target).err(),
        Some(MappingError::UnknownTarget)
    );

    let unsupported = one_entry_profile(Mapping {
        source_name: "South".to_string(),
        source_direction: None,
        target_type: TargetType::Mouse,
        target_name: "A".to_string(),
    });
    assert_eq!(
        MappingEngine::load_from_profile(&unsupported).err(),
        Some(MappingError::UnsupportedTarget)
    );
}

#[test]
fn later_profile_entry_replaces_earlier() {
    let mut profile = Profile::default_profile();
    profile.mappings.push(Mapping {
        source_name: "South".to_string(),
        source_direction: None,
        target_type: TargetType::Keyboard,
        target_name: "Space".to_string(),
    });
    let mut engine = MappingEngine::load_from_profile(&profile).unwrap();
    assert_eq!(engine.rule_table().len(), 10);
    assert_eq!(engine.process(&InputEvent::button_press(ButtonCode::South)), vec![press(
        KeyboardCode::Space
    )]);
}

#[test]
fn mapping_entry_to_rule() {
    let entry = Mapping {
        source_name: "Right Shoulder".to_string(),
        source_direction: None,
        target_type: TargetType::Keyboard,
        target_name: "LeftShift".to_string(),
    };
    assert_eq!(
        entry.to_rule(),
        Ok(MappingRule::button_to_key(ButtonCode::RightShoulder, KeyboardCode::LeftShift))
    );
    assert_eq!(KeyboardCode::from_name("F24"), Some(KeyboardCode::F24));
    assert_eq!(KeyboardCode::from_name("f24"), None);
}

#[test]
fn test_default_profile() {
    let profile = Profile::default_profile();
    assert_eq!(profile.name, "Default");
    assert_eq!(profile.mappings.len(), 10);
}

#[test]
fn default_profile_entries_use_display_names() {
    let profile = Profile::default_profile();
    let first = &profile.mappings[0];
    assert_eq!(first.source_name, "North");
    assert_eq!(first.source_direction, None);
    assert_eq!(first.target_type, TargetType::Keyboard);
    assert_eq!(first.target_name, "W");
    let dpad = &profile.mappings[6];
    assert_eq!(dpad.source_name, "DPad Y");
    assert_eq!(dpad.source_direction.as_deref(), Some("Negative"));
    assert_eq!(dpad.target_name, "Up");
    assert!(profile.settings.vibration_enabled);
    assert_eq!(profile.settings.vibration_intensity, 100);
}

#[test]
fn test_mapping_button_to_keyboard_creation() {
    let rule = MappingRule::button_to_key(ButtonCode::South, KeyboardCode::Space);

    assert_eq!(
        rule,
        MappingRule::ButtonToKey { source: ButtonCode::South, target: KeyboardCode::Space }
    );
}

#[test]
fn test_mapping_axis_to_keyboard_creation() {
    let rule = MappingRule::axis_direction_to_key(
        AxisCode::DPadY,
        AxisDirection::Positive,
        KeyboardCode::Up,
    );

    assert_eq!(
        rule,
        MappingRule::AxisDirectionToKey {
            source: AxisCode::DPadY,
            direction: AxisDirection::Positive,
            target: KeyboardCode::Up
        }
    );
}

#[test]
fn test_mapping_rule_equality() {
    let rule1 = MappingRule::button_to_key(ButtonCode::South, KeyboardCode::Space);
    let rule2 = MappingRule::button_to_key(ButtonCode::South, KeyboardCode::Space);
    let rule3 = MappingRule::button_to_key(ButtonCode::East, KeyboardCode::E);

    assert_eq!(rule1, rule2);
    assert_ne!(rule1, rule3);
}

#[test]
fn repeated_axis_sample_is_edge_triggered() {
    let mut engine = MappingEngine::new_hardcoded();
    assert_eq!(engine.process(&InputEvent::axis_move(AxisCode::DPadY, -1)), vec![press(
        KeyboardCode::Up
    )]);
    assert!(engine.process(&InputEvent::axis_move(AxisCode::DPadY, -1)).is_empty());
    assert!(engine.process(&InputEvent::axis_move(AxisCode::DPadY, -7)).is_empty());
}

#[test]
fn neutral_to_neutral_is_silent() {
    let mut engine = MappingEngine::new_hardcoded();
    assert!(engine.process(&InputEvent::axis_move(AxisCode::DPadX, 0)).is_empty());
}

#[test]
fn direction_flip_releases_before_pressing() {
    let mut engine = MappingEngine::new_hardcoded();
    engine.process(&InputEvent::axis_move(AxisCode::DPadX, 1));
    assert_eq!(engine.process(&InputEvent::axis_move(AxisCode::DPadX, -1)), vec![
        release(KeyboardCode::Right),
        press(KeyboardCode::Left)
    ]);
}

#[test]
fn unmapped_inputs_change_nothing() {
    let mut engine = MappingEngine::new_hardcoded();
    let before = engine.rule_table();
    assert!(engine.process(&InputEvent::button_press(ButtonCode::North)).is_empty());
    assert!(engine.process(&InputEvent::axis_move(AxisCode::LeftY, -500)).is_empty());
    assert!(engine.process(&InputEvent::sync()).is_empty());
    assert_eq!(engine.rule_table(), before);
    // The D-pad still starts from neutral.
    assert_eq!(engine.process(&InputEvent::axis_move(AxisCode::DPadY, 1)), vec![press(
        KeyboardCode::Down
    )]);
}

#[test]
fn dpad_without_rule_tracks_state_silently() {
    let rules = vec![MappingRule::axis_direction_to_key(
        AxisCode::DPadY,
        AxisDirection::Positive,
        KeyboardCode::Down,
    )];
    let mut engine = MappingEngine::from_rule_table(&rules);
    assert!(engine.process(&InputEvent::axis_move(AxisCode::DPadY, -1)).is_empty());
    assert_eq!(engine.process(&InputEvent::axis_move(AxisCode::DPadY, 1)), vec![press(
        KeyboardCode::Down
    )]);
}

#[test]
fn rule_table_round_trip() {
    let rules = vec![
        MappingRule::button_to_key(ButtonCode::Touchpad, KeyboardCode::Tab),
        MappingRule::axis_direction_to_key(AxisCode::DPadX, AxisDirection::Negative, KeyboardCode::A),
        MappingRule::button_to_key(ButtonCode::South, KeyboardCode::Space),
        MappingRule::axis_direction_to_key(AxisCode::DPadX, AxisDirection::Positive, KeyboardCode::D),
    ];
    let table = MappingEngine::from_rule_table(&rules).rule_table();
    assert_eq!(table.len(), rules.len());
    for rule in &rules {
        assert!(table.contains(rule));
    }
    let empty = MappingEngine::from_rule_table(&Vec::new()).rule_table();
    assert!(empty.is_empty());
}

#[test]
fn end_to_end_scenario() {
    let rules = vec![
        MappingRule::button_to_key(ButtonCode::South, KeyboardCode::S),
        MappingRule::axis_direction_to_key(AxisCode::DPadY, AxisDirection::Negative, KeyboardCode::Up),
        MappingRule::axis_direction_to_key(
            AxisCode::DPadY,
            AxisDirection::Positive,
            KeyboardCode::Down,
        ),
    ];
    let mut engine = MappingEngine::from_rule_table(&rules);
    let inputs = [
        InputEvent::button_press(ButtonCode::South),
        InputEvent::axis_move(AxisCode::DPadY, -1),
        InputEvent::axis_move(AxisCode::DPadY, 0),
        InputEvent::button_release(ButtonCode::South),
    ];
    let mut outputs = Vec::new();
    for input in &inputs {
        outputs.extend(engine.process(input));
    }
    assert_eq!(outputs, vec![
        press(KeyboardCode::S),
        press(KeyboardCode::Up),
        release(KeyboardCode::Up),
        release(KeyboardCode::S)
    ]);
}

#[test]
fn output_event_text() {
    assert_eq!(press(KeyboardCode::S).to_string(), "Keyboard: S (Press)");
    assert_eq!(release(KeyboardCode::Up).to_string(), "Keyboard: Up (Release)");
}

#[test]
fn latency_stats_accumulate() {
    let mut stats = LatencyStats::new();
    assert_eq!(stats.average_us(), None);
    stats.record(30);
    stats.record(10);
    stats.record(20);
    assert_eq!(stats.count, 3);
    assert_eq!(stats.total_us, 60);
    assert_eq!(stats.min_us, 10);
    assert_eq!(stats.max_us, 30);
    assert_eq!(stats.average_us(), Some(20));
    assert!(!stats.report_due());
}

#[test]
fn latency_stats_saturate() {
    let mut stats = LatencyStats::new();
    stats.record(u64::MAX);
    stats.record(5);
    assert_eq!(stats.total_us, u64::MAX);
    assert_eq!(stats.count, 2);
}

#[test]
fn report_due_every_hundred_events() {
    let mut event_loop = EventLoop::new(MappingEngine::new_hardcoded());
    for n in 1..=200u64 {
        let due = event_loop.on_processed(1);
        assert_eq!(due, n % 100 == 0);
    }
    assert_eq!(event_loop.stats().count, 200);
}

#[test]
fn event_loop_stops_on_disconnect() {
    let mut event_loop = EventLoop::new(MappingEngine::new_hardcoded());
    match event_loop.on_read(Some(InputEvent::button_press(ButtonCode::West))) {
        LoopAction::Emit(out) => assert_eq!(out, vec![press(KeyboardCode::A)]),
        LoopAction::Stop => panic!("an event must not stop the loop"),
    }
    assert!(event_loop.is_running());
    assert!(matches!(event_loop.on_read(None), LoopAction::Stop));
    assert!(!event_loop.is_running());
}

#[test]
fn latency_excludes_wait_time() {
    let mut event_loop = EventLoop::new(MappingEngine::new_hardcoded());
    // A slow source: the event only arrives after a long wait.
    let ready = Instant::now() + Duration::from_millis(50);
    while Instant::now() < ready {}
    let event = InputEvent::button_press(ButtonCode::South);
    let start = Instant::now();
    let action = event_loop.on_read(Some(event));
    assert!(matches!(action, LoopAction::Emit(_)));
    let latency_us = start.elapsed().as_micros() as u64;
    event_loop.on_processed(latency_us);
    assert_eq!(event_loop.stats().count, 1);
    assert!(event_loop.stats().max_us < 50_000);
}
