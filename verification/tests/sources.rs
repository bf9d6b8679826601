use schminput::source::{GamepadAxis, GamepadBindingSource, GamepadButton, GamepadInput};

fn all_sources() -> Vec<GamepadBindingSource> {
    vec![
        GamepadBindingSource::LeftStickX,
        GamepadBindingSource::LeftStickY,
        GamepadBindingSource::RightStickX,
        GamepadBindingSource::RightStickY,
        GamepadBindingSource::South,
        GamepadBindingSource::East,
        GamepadBindingSource::North,
        GamepadBindingSource::West,
        GamepadBindingSource::LeftTrigger,
        GamepadBindingSource::LeftSecondaryTrigger,
        GamepadBindingSource::RightTrigger,
        GamepadBindingSource::RightSecondaryTrigger,
        GamepadBindingSource::LeftStickClick,
        GamepadBindingSource::RightStickClick,
        GamepadBindingSource::DPadUp,
        GamepadBindingSource::DPadDown,
        GamepadBindingSource::DPadLeft,
        GamepadBindingSource::DPadRight,
        GamepadBindingSource::Select,
        GamepadBindingSource::Start,
        GamepadBindingSource::Mode,
        GamepadBindingSource::LeftZ,
        GamepadBindingSource::RightZ,
        GamepadBindingSource::C,
        GamepadBindingSource::Z,
        GamepadBindingSource::OtherAxis(0),
        GamepadBindingSource::OtherAxis(200),
        GamepadBindingSource::OtherButton(0),
        GamepadBindingSource::OtherButton(255),
    ]
}

#[test]
fn primary_trigger_is_the_second_trigger_button() {
    assert_eq!(
        GamepadBindingSource::LeftTrigger.as_button_type(),
        Some(GamepadButton::LeftTrigger2)
    );
    assert_eq!(
        GamepadBindingSource::RightTrigger.as_button_type(),
        Some(GamepadButton::RightTrigger2)
    );
    assert_eq!(
        GamepadBindingSource::LeftSecondaryTrigger.as_button_type(),
        Some(GamepadButton::LeftTrigger)
    );
    assert_eq!(
        GamepadBindingSource::RightSecondaryTrigger.as_button_type(),
        Some(GamepadButton::RightTrigger)
    );
    assert_eq!(GamepadBindingSource::LeftTrigger.as_axis_type(), None);
}

#[test]
fn axes_convert_both_ways() {
    assert_eq!(
        GamepadBindingSource::LeftStickX.as_axis_type(),
        Some(GamepadAxis::LeftStickX)
    );
    assert_eq!(
        GamepadBindingSource::RightZ.as_axis_type(),
        Some(GamepadAxis::RightZ)
    );
    assert_eq!(
        GamepadBindingSource::OtherAxis(7).as_axis_type(),
        Some(GamepadAxis::Other(7))
    );
    assert_eq!(GamepadBindingSource::South.as_axis_type(), None);
    assert_eq!(
        GamepadBindingSource::from_axis(&GamepadAxis::Other(9)),
        GamepadBindingSource::OtherAxis(9)
    );
    assert_eq!(
        GamepadBindingSource::from_axis(&GamepadAxis::LeftZ),
        GamepadBindingSource::LeftZ
    );
}

#[test]
fn buttons_convert_both_ways() {
    assert_eq!(
        GamepadBindingSource::LeftStickClick.as_button_type(),
        Some(GamepadButton::LeftThumb)
    );
    assert_eq!(
        GamepadBindingSource::OtherButton(3).as_button_type(),
        Some(GamepadButton::Other(3))
    );
    assert_eq!(GamepadBindingSource::LeftStickY.as_button_type(), None);
    assert_eq!(
        GamepadBindingSource::from_button(&GamepadButton::LeftTrigger2),
        GamepadBindingSource::LeftTrigger
    );
    assert_eq!(
        GamepadBindingSource::from_button(&GamepadButton::RightThumb),
        GamepadBindingSource::RightStickClick
    );
    assert_eq!(
        GamepadBindingSource::from_button(&GamepadButton::Other(250)),
        GamepadBindingSource::OtherButton(250)
    );
}

#[test]
fn every_source_is_an_axis_or_a_button_and_converts_back() {
    for source in all_sources() {
        let axis = source.as_axis_type();
        let button = source.as_button_type();
        assert_ne!(axis.is_some(), button.is_some(), "{:?}", source);
        if let Some(axis) = axis {
            assert_eq!(GamepadBindingSource::from_axis(&axis), source);
            assert_eq!(GamepadInput::from(source), GamepadInput::Axis(axis));
        }
        if let Some(button) = button {
            assert_eq!(GamepadBindingSource::from_button(&button), source);
            assert_eq!(GamepadInput::from(source), GamepadInput::Button(button));
        }
    }
}

#[test]
fn source_converts_into_the_input_that_is_read() {
    let input: GamepadInput = GamepadBindingSource::DPadLeft.into();
    assert_eq!(input, GamepadInput::Button(GamepadButton::DPadLeft));
    let input: GamepadInput = GamepadBindingSource::RightStickY.into();
    assert_eq!(input, GamepadInput::Axis(GamepadAxis::RightStickY));
}

#[test]
fn labels_of_named_sources() {
    assert_eq!(GamepadBindingSource::LeftTrigger.label(), "Left Trigger");
    assert_eq!(GamepadBindingSource::RightTrigger.label(), "Right Trigger");
    assert_eq!(GamepadBindingSource::LeftStickX.label(), "Left Stick X");
    assert_eq!(GamepadBindingSource::RightStickY.label(), "Right Stick Y");
    assert_eq!(GamepadBindingSource::South.label(), "South");
    assert_eq!(
        GamepadBindingSource::LeftSecondaryTrigger.label(),
        "Left Secondary Trigger"
    );
    assert_eq!(GamepadBindingSource::RightStickClick.label(), "Right Stick Click");
    assert_eq!(GamepadBindingSource::DPadUp.label(), "Dpad Up");
    assert_eq!(GamepadBindingSource::Mode.label(), "Mode");
    assert_eq!(GamepadBindingSource::LeftZ.label(), "Left Z Axis");
    assert_eq!(GamepadBindingSource::C.label(), "C Button");
    assert_eq!(GamepadBindingSource::Z.label(), "Z Button");
}

#[test]
fn labels_of_numbered_sources_are_decimal() {
    assert_eq!(GamepadBindingSource::OtherAxis(0).label(), "Axis 0");
    assert_eq!(GamepadBindingSource::OtherAxis(7).label(), "Axis 7");
    assert_eq!(GamepadBindingSource::OtherAxis(10).label(), "Axis 10");
    assert_eq!(GamepadBindingSource::OtherAxis(42).label(), "Axis 42");
    assert_eq!(GamepadBindingSource::OtherButton(100).label(), "Button 100");
    assert_eq!(GamepadBindingSource::OtherButton(109).label(), "Button 109");
    assert_eq!(GamepadBindingSource::OtherButton(255).label(), "Button 255");
    for n in 0..=255u8 {
        assert_eq!(
            GamepadBindingSource::OtherAxis(n).label(),
            format!("Axis {}", n)
        );
    }
}
