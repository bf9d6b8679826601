use schminput::binding::{
    get_binding_id, ButtonInputBehavior, GamepadBinding, GamepadBindings, InputAxis,
    InputAxisDirection,
};
use schminput::source::GamepadBindingSource;

#[test]
fn new_binding_has_the_default_interpretation() {
    let binding = GamepadBinding::new(GamepadBindingSource::South);
    assert_eq!(binding.source, GamepadBindingSource::South);
    assert_eq!(binding.button_behavior, ButtonInputBehavior::Pressed);
    assert_eq!(binding.axis, InputAxis::X);
    assert_eq!(binding.axis_dir, InputAxisDirection::Positive);
    assert_eq!(ButtonInputBehavior::default(), ButtonInputBehavior::Pressed);
    assert_eq!(InputAxis::default(), InputAxis::X);
    assert_eq!(InputAxisDirection::default(), InputAxisDirection::Positive);
}

#[test]
fn builders_change_one_field_each() {
    let base = GamepadBinding::new(GamepadBindingSource::LeftStickY);
    assert_eq!(
        base.button_just_pressed(),
        GamepadBinding { button_behavior: ButtonInputBehavior::JustPressed, ..base }
    );
    assert_eq!(
        base.button_just_released(),
        GamepadBinding { button_behavior: ButtonInputBehavior::JustReleased, ..base }
    );
    assert_eq!(base.button_just_pressed().button_pressed(), base);
    assert_eq!(base.y_axis(), GamepadBinding { axis: InputAxis::Y, ..base });
    assert_eq!(base.y_axis().x_axis(), base);
    assert_eq!(
        base.negative(),
        GamepadBinding { axis_dir: InputAxisDirection::Negative, ..base }
    );
    assert_eq!(base.negative().positive(), base);
}

#[test]
fn direction_multiplies_by_one_or_minus_one() {
    assert_eq!(InputAxisDirection::Positive.as_multiplier(), 1);
    assert_eq!(InputAxisDirection::Negative.as_multiplier(), -1);
}

#[test]
fn binding_id_depends_on_the_source_only() {
    let plain = GamepadBinding::new(GamepadBindingSource::RightTrigger);
    let id = get_binding_id(&plain);
    assert_eq!(get_binding_id(&plain.y_axis()), id);
    assert_eq!(get_binding_id(&plain.negative()), id);
    assert_eq!(get_binding_id(&plain.button_just_pressed()), id);
    assert_eq!(get_binding_id(&plain.button_just_released().y_axis().negative()), id);
    assert_eq!(get_binding_id(&plain), id);
}

#[test]
fn binding_ids_tell_sources_apart() {
    let sources = [
        GamepadBindingSource::LeftStickX,
        GamepadBindingSource::LeftStickY,
        GamepadBindingSource::South,
        GamepadBindingSource::LeftTrigger,
        GamepadBindingSource::LeftSecondaryTrigger,
        GamepadBindingSource::OtherAxis(0),
        GamepadBindingSource::OtherAxis(1),
        GamepadBindingSource::OtherButton(0),
        GamepadBindingSource::OtherButton(1),
    ];
    for (i, a) in sources.iter().enumerate() {
        for (j, b) in sources.iter().enumerate() {
            let same = get_binding_id(&GamepadBinding::new(*a))
                == get_binding_id(&GamepadBinding::new(*b));
            assert_eq!(same, i == j, "{a:?} {b:?}");
        }
    }
}

#[test]
fn bind_appends_in_order() {
    let a = GamepadBinding::new(GamepadBindingSource::South);
    let b = GamepadBinding::new(GamepadBindingSource::East).button_just_pressed();
    let bindings = GamepadBindings::new().bind(a).bind(b);
    assert_eq!(bindings.bindings, vec![a, b]);
    assert_eq!(GamepadBindings::new().bindings, vec![]);
    assert_eq!(GamepadBindings::default(), GamepadBindings::new());
}

#[test]
fn add_stick_binds_both_axes() {
    let bindings = GamepadBindings::new()
        .bind(GamepadBinding::new(GamepadBindingSource::South))
        .add_stick(
            GamepadBindingSource::LeftStickX,
            GamepadBindingSource::LeftStickY,
        );
    assert_eq!(
        bindings.bindings,
        vec![
            GamepadBinding::new(GamepadBindingSource::South),
            GamepadBinding {
                source: GamepadBindingSource::LeftStickX,
                button_behavior: ButtonInputBehavior::Pressed,
                axis: InputAxis::X,
                axis_dir: InputAxisDirection::Positive,
            },
            GamepadBinding {
                source: GamepadBindingSource::LeftStickY,
                button_behavior: ButtonInputBehavior::Pressed,
                axis: InputAxis::Y,
                axis_dir: InputAxisDirection::Positive,
            },
        ]
    );
}

#[test]
fn binding_ids_follow_the_bindings() {
    let bindings = GamepadBindings::new().add_stick(
        GamepadBindingSource::RightStickX,
        GamepadBindingSource::RightStickY,
    );
    let ids = bindings.binding_ids();
    assert_eq!(ids.len(), 2);
    assert_eq!(ids[0], get_binding_id(&bindings.bindings[0]));
    assert_eq!(ids[1], get_binding_id(&bindings.bindings[1]));
    assert_ne!(ids[0], ids[1]);
    assert_eq!(GamepadBindings::new().binding_ids(), Vec::<u64>::new());
}

#[test]
fn clone_keeps_the_bindings() {
    let bindings = GamepadBindings::new()
        .bind(GamepadBinding::new(GamepadBindingSource::Mode))
        .bind(GamepadBinding::new(GamepadBindingSource::OtherButton(4)).negative());
    assert_eq!(bindings.clone(), bindings);
}
