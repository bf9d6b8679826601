use schminput::device::{GamepadDevice, GamepadIdentifier};
use schminput::haptic::{
    make_request, sync_haptics, GamepadHapticOutput, GamepadHapticOutputBindings,
    GamepadHapticType, GamepadHapticValue, GamepadRumbleIntensity, GamepadRumbleRequest,
};
use schminput::subaction_paths::{SubactionPath, SubactionPathRegistry};
use schminput::value::FloatBits;
use std::time::Duration;

fn bits(value: f32) -> FloatBits {
    FloatBits(value.to_bits())
}

fn device(entity: u64, identifier: Option<&str>) -> GamepadDevice {
    GamepadDevice {
        entity,
        identifier: identifier.map(|id| GamepadIdentifier(id.to_string())),
    }
}

fn stop(gamepad: u64) -> GamepadRumbleRequest {
    GamepadRumbleRequest::Stop { gamepad }
}

#[test]
fn haptic_type_labels() {
    assert_eq!(GamepadHapticType::Weak.label(), "Weak");
    assert_eq!(GamepadHapticType::Strong.label(), "Strong");
}

#[test]
fn rumble_intensity_drives_one_motor() {
    let weak = GamepadHapticType::Weak.as_rumble_intensity(bits(0.75));
    assert_eq!(f32::from_bits(weak.weak_motor.0), 0.75);
    assert_eq!(f32::from_bits(weak.strong_motor.0), 0.0);
    assert_eq!(weak.strong_motor, FloatBits(0));
    let strong = GamepadHapticType::Strong.as_rumble_intensity(bits(0.25));
    assert_eq!(
        strong,
        GamepadRumbleIntensity { strong_motor: bits(0.25), weak_motor: bits(0.0) }
    );
}

#[test]
fn output_bindings_builders() {
    assert_eq!(GamepadHapticOutputBindings::new().bindings, vec![]);
    assert_eq!(
        GamepadHapticOutputBindings::new().weak().strong().weak().bindings,
        vec![
            GamepadHapticType::Weak,
            GamepadHapticType::Strong,
            GamepadHapticType::Weak
        ]
    );
    assert_eq!(
        GamepadHapticOutputBindings::default(),
        GamepadHapticOutputBindings::new()
    );
}

#[test]
fn output_collects_commands_in_order() {
    let second = Duration::from_secs(1);
    let mut out = GamepadHapticOutput::new();
    out.add(second, bits(0.5)).stop().add(second, bits(1.0));
    assert_eq!(
        out.any(),
        &vec![
            GamepadHapticValue::Add { duration: second, intensity: bits(0.5) },
            GamepadHapticValue::Stop,
            GamepadHapticValue::Add { duration: second, intensity: bits(1.0) },
        ]
    );
    assert_eq!(out.get_with_path(SubactionPath(0)), None);
}

#[test]
fn output_keeps_paths_apart() {
    let ms = Duration::from_millis(20);
    let mut out = GamepadHapticOutput::new();
    out.add_with_path(ms, bits(0.1), SubactionPath(3))
        .stop_with_path(SubactionPath(1))
        .stop_with_path(SubactionPath(3))
        .add_with_path(ms, bits(0.2), SubactionPath(1));
    assert_eq!(
        out.get_with_path(SubactionPath(3)),
        Some(&vec![
            GamepadHapticValue::Add { duration: ms, intensity: bits(0.1) },
            GamepadHapticValue::Stop,
        ])
    );
    assert_eq!(
        out.get_with_path(SubactionPath(1)),
        Some(&vec![
            GamepadHapticValue::Stop,
            GamepadHapticValue::Add { duration: ms, intensity: bits(0.2) },
        ])
    );
    assert_eq!(out.get_with_path(SubactionPath(2)), None);
    assert!(out.any().is_empty());
}

#[test]
fn clear_forgets_every_command() {
    let mut out = GamepadHapticOutput::new();
    out.stop().stop_with_path(SubactionPath(0));
    out.clear();
    assert!(out.any().is_empty());
    assert_eq!(out.get_with_path(SubactionPath(0)), None);
    let fresh = GamepadHapticOutput::default();
    assert!(fresh.any().is_empty());
}

#[test]
fn request_carries_duration_and_motor() {
    let duration = Duration::from_millis(250);
    let request = make_request(
        &GamepadHapticValue::Add { duration, intensity: bits(0.5) },
        &GamepadHapticType::Strong,
        7,
    );
    assert_eq!(
        request,
        GamepadRumbleRequest::Add {
            duration,
            intensity: GamepadRumbleIntensity { strong_motor: bits(0.5), weak_motor: bits(0.0) },
            gamepad: 7,
        }
    );
    assert_eq!(
        make_request(&GamepadHapticValue::Stop, &GamepadHapticType::Weak, 9),
        stop(9)
    );
}

#[test]
fn any_path_stop_reaches_every_connected_device() {
    let registry = SubactionPathRegistry::new();
    let gamepads = vec![device(10, None), device(11, Some("0")), device(12, Some("1"))];
    let mut out = GamepadHapticOutput::new();
    out.stop();
    let requests = sync_haptics(
        true,
        &GamepadHapticOutputBindings::new().weak(),
        &out,
        &Vec::new(),
        &registry,
        &gamepads,
    );
    assert_eq!(requests, vec![stop(10), stop(11), stop(12)]);
}

#[test]
fn named_disconnected_device_gets_nothing() {
    let mut registry = SubactionPathRegistry::new();
    let path = registry.intern("/gamepad/5");
    let gamepads = vec![device(10, None), device(11, Some("0"))];
    let mut out = GamepadHapticOutput::new();
    out.stop_with_path(path)
        .add_with_path(Duration::from_secs(1), bits(1.0), path);
    let requests = sync_haptics(
        true,
        &GamepadHapticOutputBindings::new().weak().strong(),
        &out,
        &vec![path],
        &registry,
        &gamepads,
    );
    assert_eq!(requests, vec![]);
}

#[test]
fn named_device_gets_its_commands_alone() {
    let mut registry = SubactionPathRegistry::new();
    let path = registry.intern("/gamepad/0");
    let gamepads = vec![
        device(10, None),
        device(11, Some("0")),
        device(12, Some("0")),
    ];
    let second = Duration::from_secs(1);
    let mut out = GamepadHapticOutput::new();
    out.add_with_path(second, bits(0.5), path).stop_with_path(path);
    let requests = sync_haptics(
        true,
        &GamepadHapticOutputBindings::new().weak().strong(),
        &out,
        &vec![path],
        &registry,
        &gamepads,
    );
    assert_eq!(
        requests,
        vec![
            GamepadRumbleRequest::Add {
                duration: second,
                intensity: GamepadRumbleIntensity {
                    strong_motor: bits(0.0),
                    weak_motor: bits(0.5)
                },
                gamepad: 11,
            },
            stop(11),
            GamepadRumbleRequest::Add {
                duration: second,
                intensity: GamepadRumbleIntensity {
                    strong_motor: bits(0.5),
                    weak_motor: bits(0.0)
                },
                gamepad: 11,
            },
            stop(11),
        ]
    );
}

#[test]
fn dispatch_order_is_bindings_then_devices_then_commands() {
    let mut registry = SubactionPathRegistry::new();
    let everyone = registry.intern("/gamepad/*");
    let keyboard = registry.intern("/keyboard");
    let gamepads = vec![device(1, None), device(2, None)];
    let d = Duration::from_millis(5);
    let mut out = GamepadHapticOutput::new();
    out.add(d, bits(0.3)).stop();
    out.stop_with_path(everyone).stop_with_path(keyboard);
    let requests = sync_haptics(
        true,
        &GamepadHapticOutputBindings::new().strong().weak(),
        &out,
        &vec![keyboard, everyone, SubactionPath(40)],
        &registry,
        &gamepads,
    );
    let add = |kind: GamepadHapticType, gamepad: u64| GamepadRumbleRequest::Add {
        duration: d,
        intensity: kind.as_rumble_intensity(bits(0.3)),
        gamepad,
    };
    assert_eq!(
        requests,
        vec![
            add(GamepadHapticType::Strong, 1),
            stop(1),
            add(GamepadHapticType::Strong, 2),
            stop(2),
            add(GamepadHapticType::Weak, 1),
            stop(1),
            add(GamepadHapticType::Weak, 2),
            stop(2),
            stop(1),
            stop(2),
            stop(1),
            stop(2),
        ]
    );
}

#[test]
fn disabled_set_sends_nothing() {
    let mut registry = SubactionPathRegistry::new();
    let path = registry.intern("/gamepad");
    let mut out = GamepadHapticOutput::new();
    out.stop().stop_with_path(path);
    let requests = sync_haptics(
        false,
        &GamepadHapticOutputBindings::new().weak(),
        &out,
        &vec![path],
        &registry,
        &vec![device(1, None)],
    );
    assert_eq!(requests, vec![]);
}

#[test]
fn action_without_haptic_bindings_sends_nothing() {
    let registry = SubactionPathRegistry::new();
    let mut out = GamepadHapticOutput::new();
    out.stop();
    let requests = sync_haptics(
        true,
        &GamepadHapticOutputBindings::new(),
        &out,
        &Vec::new(),
        &registry,
        &vec![device(1, None)],
    );
    assert_eq!(requests, vec![]);
}

#[test]
fn clone_keeps_the_commands() {
    let d = Duration::from_millis(7);
    let mut out = GamepadHapticOutput::new();
    out.add(d, bits(0.5))
        .stop_with_path(SubactionPath(2))
        .add_with_path(d, bits(0.25), SubactionPath(2));
    let copy = out.clone();
    assert_eq!(copy.any(), out.any());
    assert_eq!(
        copy.get_with_path(SubactionPath(2)),
        out.get_with_path(SubactionPath(2))
    );
    assert_eq!(copy.get_with_path(SubactionPath(2)).map(Vec::len), Some(2));
    assert_eq!(copy.get_with_path(SubactionPath(1)), None);
    let bindings = GamepadHapticOutputBindings::new().strong().weak();
    assert_eq!(bindings.clone(), bindings);
}
