//! Physical gamepad sources and their classification as axes or buttons.

use crate::text::{decimal_digits, decimal_string};
use vstd::prelude::*;

verus! {

/// An analog axis of a gamepad.
#[derive(Clone, Copy, Debug, PartialEq, Eq, Hash, Structural)]
pub enum GamepadAxis {
    /// The horizontal value of the left stick.
    LeftStickX,
    /// The vertical value of the left stick.
    LeftStickY,
    /// The value of the left `Z` button.
    LeftZ,
    /// The horizontal value of the right stick.
    RightStickX,
    /// The vertical value of the right stick.
    RightStickY,
    /// The value of the right `Z` button.
    RightZ,
    /// Any other axis, by its device-specific number.
    Other(u8),
}

/// A button of a gamepad.
#[derive(Clone, Copy, Debug, PartialEq, Eq, Hash, Structural)]
pub enum GamepadButton {
    /// The bottom action button of the action pad.
    South,
    /// The right action button of the action pad.
    East,
    /// The upper action button of the action pad.
    North,
    /// The left action button of the action pad.
    West,
    /// The C button.
    C,
    /// The Z button.
    Z,
    /// The first left trigger (the shoulder button).
    LeftTrigger,
    /// The second left trigger.
    LeftTrigger2,
    /// The first right trigger (the shoulder button).
    RightTrigger,
    /// The second right trigger.
    RightTrigger2,
    /// The select button.
    Select,
    /// The start button.
    Start,
    /// The mode button.
    Mode,
    /// The left thumb stick button.
    LeftThumb,
    /// The right thumb stick button.
    RightThumb,
    /// The up button of the D-Pad.
    DPadUp,
    /// The down button of the D-Pad.
    DPadDown,
    /// The left button of the D-Pad.
    DPadLeft,
    /// The right button of the D-Pad.
    DPadRight,
    /// Any other button, by its device-specific number.
    Other(u8),
}

/// What a device is asked for when a source is read: an axis or a button.
#[derive(Clone, Copy, Debug, PartialEq, Eq, Hash, Structural)]
pub enum GamepadInput {
    /// An analog axis.
    Axis(GamepadAxis),
    /// A button.
    Button(GamepadButton),
}

/// A physical source on a gamepad that a binding can read: the union of
/// the axes and the buttons.
#[derive(Clone, Copy, Debug, PartialEq, Eq, Hash, Structural)]
pub enum GamepadBindingSource {
    /// The horizontal value of the left stick.
    LeftStickX,
    /// The vertical value of the left stick.
    LeftStickY,
    /// The horizontal value of the right stick.
    RightStickX,
    /// The vertical value of the right stick.
    RightStickY,
    /// The bottom action button of the action pad (i.e. PS: Cross, Xbox: A).
    South,
    /// The right action button of the action pad (i.e. PS: Circle, Xbox: B).
    East,
    /// The upper action button of the action pad (i.e. PS: Triangle, Xbox: Y).
    North,
    /// The left action button of the action pad (i.e. PS: Square, Xbox: X).
    West,
    /// The primary left trigger.
    LeftTrigger,
    /// The secondary left trigger.
    LeftSecondaryTrigger,
    /// The primary right trigger.
    RightTrigger,
    /// The secondary right trigger.
    RightSecondaryTrigger,
    /// The left thumb stick button.
    LeftStickClick,
    /// The right thumb stick button.
    RightStickClick,
    /// The up button of the D-Pad.
    DPadUp,
    /// The down button of the D-Pad.
    DPadDown,
    /// The left button of the D-Pad.
    DPadLeft,
    /// The right button of the D-Pad.
    DPadRight,
    /// The select button.
    Select,
    /// The start button.
    Start,
    /// The mode button.
    Mode,
    /// The value of the left `Z` button.
    LeftZ,
    /// The value of the right `Z` button.
    RightZ,
    /// The C button.
    C,
    /// The Z button.
    Z,
    /// Non-standard support for other axis types (i.e. HOTAS sliders, potentiometers, etc).
    OtherAxis(u8),
    /// Miscellaneous buttons, considered non-standard (i.e. extra buttons on a
    /// flight stick that do not have a gamepad equivalent).
    OtherButton(u8),
}

impl GamepadBindingSource {
    /// The axis that this source reads, if it is an axis.
    pub open spec fn axis_of(self) -> Option<GamepadAxis> {
        match self {
            GamepadBindingSource::LeftStickX => Some(GamepadAxis::LeftStickX),
            GamepadBindingSource::LeftStickY => Some(GamepadAxis::LeftStickY),
            GamepadBindingSource::RightStickX => Some(GamepadAxis::RightStickX),
            GamepadBindingSource::RightStickY => Some(GamepadAxis::RightStickY),
            GamepadBindingSource::LeftZ => Some(GamepadAxis::LeftZ),
            GamepadBindingSource::RightZ => Some(GamepadAxis::RightZ),
            GamepadBindingSource::OtherAxis(v) => Some(GamepadAxis::Other(v)),
            _ => None,
        }
    }

    /// The button that this source reads, if it is a button. The primary
    /// triggers are the devices' second triggers, the secondary triggers
    /// their first (the shoulder buttons).
    pub open spec fn button_of(self) -> Option<GamepadButton> {
        match self {
            GamepadBindingSource::South => Some(GamepadButton::South),
            GamepadBindingSource::East => Some(GamepadButton::East),
            GamepadBindingSource::North => Some(GamepadButton::North),
            GamepadBindingSource::West => Some(GamepadButton::West),
            GamepadBindingSource::LeftTrigger => Some(GamepadButton::LeftTrigger2),
            GamepadBindingSource::LeftSecondaryTrigger => Some(GamepadButton::LeftTrigger),
            GamepadBindingSource::RightTrigger => Some(GamepadButton::RightTrigger2),
            GamepadBindingSource::RightSecondaryTrigger => Some(GamepadButton::RightTrigger),
            GamepadBindingSource::LeftStickClick => Some(GamepadButton::LeftThumb),
            GamepadBindingSource::RightStickClick => Some(GamepadButton::RightThumb),
            GamepadBindingSource::DPadUp => Some(GamepadButton::DPadUp),
            GamepadBindingSource::DPadDown => Some(GamepadButton::DPadDown),
            GamepadBindingSource::DPadLeft => Some(GamepadButton::DPadLeft),
            GamepadBindingSource::DPadRight => Some(GamepadButton::DPadRight),
            GamepadBindingSource::Select => Some(GamepadButton::Select),
            GamepadBindingSource::Start => Some(GamepadButton::Start),
            GamepadBindingSource::Mode => Some(GamepadButton::Mode),
            GamepadBindingSource::C => Some(GamepadButton::C),
            GamepadBindingSource::Z => Some(GamepadButton::Z),
            GamepadBindingSource::OtherButton(v) => Some(GamepadButton::Other(v)),
            _ => None,
        }
    }

    /// The source that reads a given axis.
    pub open spec fn of_axis(axis: GamepadAxis) -> GamepadBindingSource {
        match axis {
            GamepadAxis::LeftStickX => GamepadBindingSource::LeftStickX,
            GamepadAxis::LeftStickY => GamepadBindingSource::LeftStickY,
            GamepadAxis::RightStickX => GamepadBindingSource::RightStickX,
            GamepadAxis::RightStickY => GamepadBindingSource::RightStickY,
            GamepadAxis::LeftZ => GamepadBindingSource::LeftZ,
            GamepadAxis::RightZ => GamepadBindingSource::RightZ,
            GamepadAxis::Other(v) => GamepadBindingSource::OtherAxis(v),
        }
    }

    /// The source that reads a given button.
    pub open spec fn of_button(button: GamepadButton) -> GamepadBindingSource {
        match button {
            GamepadButton::South => GamepadBindingSource::South,
            GamepadButton::East => GamepadBindingSource::East,
            GamepadButton::North => GamepadBindingSource::North,
            GamepadButton::West => GamepadBindingSource::West,
            GamepadButton::LeftTrigger2 => GamepadBindingSource::LeftTrigger,
            GamepadButton::LeftTrigger => GamepadBindingSource::LeftSecondaryTrigger,
            GamepadButton::RightTrigger2 => GamepadBindingSource::RightTrigger,
            GamepadButton::RightTrigger => GamepadBindingSource::RightSecondaryTrigger,
            GamepadButton::LeftThumb => GamepadBindingSource::LeftStickClick,
            GamepadButton::RightThumb => GamepadBindingSource::RightStickClick,
            GamepadButton::DPadUp => GamepadBindingSource::DPadUp,
            GamepadButton::DPadDown => GamepadBindingSource::DPadDown,
            GamepadButton::DPadLeft => GamepadBindingSource::DPadLeft,
            GamepadButton::DPadRight => GamepadBindingSource::DPadRight,
            GamepadButton::Select => GamepadBindingSource::Select,
            GamepadButton::Start => GamepadBindingSource::Start,
            GamepadButton::Mode => GamepadBindingSource::Mode,
            GamepadButton::C => GamepadBindingSource::C,
            GamepadButton::Z => GamepadBindingSource::Z,
            GamepadButton::Other(v) => GamepadBindingSource::OtherButton(v),
        }
    }

    /// What a device is asked for when this source is read.
    pub open spec fn input_of(self) -> GamepadInput {
        match self.axis_of() {
            Some(axis) => GamepadInput::Axis(axis),
            None => GamepadInput::Button(self.button_of().unwrap()),
        }
    }

    /// The axis behind this source, or `None` for a button.
    pub fn as_axis_type(&self) -> (axis: Option<GamepadAxis>)
        ensures
            axis == self.axis_of(),
    {
        Some(
            match self {
                GamepadBindingSource::LeftStickX => GamepadAxis::LeftStickX,
                GamepadBindingSource::LeftStickY => GamepadAxis::LeftStickY,
                GamepadBindingSource::RightStickX => GamepadAxis::RightStickX,
                GamepadBindingSource::RightStickY => GamepadAxis::RightStickY,
                GamepadBindingSource::LeftZ => GamepadAxis::LeftZ,
                GamepadBindingSource::RightZ => GamepadAxis::RightZ,
                GamepadBindingSource::OtherAxis(v) => GamepadAxis::Other(*v),
                _ => return None,
            },
        )
    }

    /// The source that reads `axis`.
    pub fn from_axis(axis: &GamepadAxis) -> (source: GamepadBindingSource)
        ensures
            source == Self::of_axis(*axis),
            source.axis_of() == Some(*axis),
    {
        match axis {
            GamepadAxis::LeftStickX => GamepadBindingSource::LeftStickX,
            GamepadAxis::LeftStickY => GamepadBindingSource::LeftStickY,
            GamepadAxis::RightStickX => GamepadBindingSource::RightStickX,
            GamepadAxis::RightStickY => GamepadBindingSource::RightStickY,
            GamepadAxis::LeftZ => GamepadBindingSource::LeftZ,
            GamepadAxis::RightZ => GamepadBindingSource::RightZ,
            GamepadAxis::Other(v) => GamepadBindingSource::OtherAxis(*v),
        }
    }

    /// The button behind this source, or `None` for an axis.
    pub fn as_button_type(&self) -> (button: Option<GamepadButton>)
        ensures
            button == self.button_of(),
    {
        Some(
            match self {
                GamepadBindingSource::South => GamepadButton::South,
                GamepadBindingSource::East => GamepadButton::East,
                GamepadBindingSource::North => GamepadButton::North,
                GamepadBindingSource::West => GamepadButton::West,
                GamepadBindingSource::LeftTrigger => GamepadButton::LeftTrigger2,
                GamepadBindingSource::LeftSecondaryTrigger => GamepadButton::LeftTrigger,
                GamepadBindingSource::RightTrigger => GamepadButton::RightTrigger2,
                GamepadBindingSource::RightSecondaryTrigger => GamepadButton::RightTrigger,
                GamepadBindingSource::LeftStickClick => GamepadButton::LeftThumb,
                GamepadBindingSource::RightStickClick => GamepadButton::RightThumb,
                GamepadBindingSource::DPadUp => GamepadButton::DPadUp,
                GamepadBindingSource::DPadDown => GamepadButton::DPadDown,
                GamepadBindingSource::DPadLeft => GamepadButton::DPadLeft,
                GamepadBindingSource::DPadRight => GamepadButton::DPadRight,
                GamepadBindingSource::Select => GamepadButton::Select,
                GamepadBindingSource::Start => GamepadButton::Start,
                GamepadBindingSource::Mode => GamepadButton::Mode,
                GamepadBindingSource::C => GamepadButton::C,
                GamepadBindingSource::Z => GamepadButton::Z,
                GamepadBindingSource::OtherButton(v) => GamepadButton::Other(*v),
                _ => return None,
            },
        )
    }

    /// The source that reads `button`.
    pub fn from_button(button: &GamepadButton) -> (source: GamepadBindingSource)
        ensures
            source == Self::of_button(*button),
            source.button_of() == Some(*button),
    {
        match button {
            GamepadButton::South => GamepadBindingSource::South,
            GamepadButton::East => GamepadBindingSource::East,
            GamepadButton::North => GamepadBindingSource::North,
            GamepadButton::West => GamepadBindingSource::West,
            GamepadButton::LeftTrigger2 => GamepadBindingSource::LeftTrigger,
            GamepadButton::LeftTrigger => GamepadBindingSource::LeftSecondaryTrigger,
            GamepadButton::RightTrigger2 => GamepadBindingSource::RightTrigger,
            GamepadButton::RightTrigger => GamepadBindingSource::RightSecondaryTrigger,
            GamepadButton::LeftThumb => GamepadBindingSource::LeftStickClick,
            GamepadButton::RightThumb => GamepadBindingSource::RightStickClick,
            GamepadButton::DPadUp => GamepadBindingSource::DPadUp,
            GamepadButton::DPadDown => GamepadBindingSource::DPadDown,
            GamepadButton::DPadLeft => GamepadBindingSource::DPadLeft,
            GamepadButton::DPadRight => GamepadBindingSource::DPadRight,
            GamepadButton::Select => GamepadBindingSource::Select,
            GamepadButton::Start => GamepadBindingSource::Start,
            GamepadButton::Mode => GamepadBindingSource::Mode,
            GamepadButton::C => GamepadBindingSource::C,
            GamepadButton::Z => GamepadBindingSource::Z,
            GamepadButton::Other(v) => GamepadBindingSource::OtherButton(*v),
        }
    }

    /// The name under which this source is shown to a user. The
    /// non-standard axes and buttons are shown with their number in decimal.
    pub open spec fn label_of(self) -> Seq<char> {
        match self {
            GamepadBindingSource::LeftTrigger => "Left Trigger"@,
            GamepadBindingSource::RightTrigger => "Right Trigger"@,
            GamepadBindingSource::LeftStickX => "Left Stick X"@,
            GamepadBindingSource::LeftStickY => "Left Stick Y"@,
            GamepadBindingSource::RightStickX => "Right Stick X"@,
            GamepadBindingSource::RightStickY => "Right Stick Y"@,
            GamepadBindingSource::South => "South"@,
            GamepadBindingSource::East => "East"@,
            GamepadBindingSource::North => "North"@,
            GamepadBindingSource::West => "West"@,
            GamepadBindingSource::LeftSecondaryTrigger => "Left Secondary Trigger"@,
            GamepadBindingSource::RightSecondaryTrigger => "Right Secondary Trigger"@,
            GamepadBindingSource::LeftStickClick => "Left Stick Click"@,
            GamepadBindingSource::RightStickClick => "Right Stick Click"@,
            GamepadBindingSource::DPadUp => "Dpad Up"@,
            GamepadBindingSource::DPadDown => "Dpad Down"@,
            GamepadBindingSource::DPadLeft => "Dpad Left"@,
            GamepadBindingSource::DPadRight => "Dpad Right"@,
            GamepadBindingSource::Select => "Select"@,
            GamepadBindingSource::Start => "Start"@,
            GamepadBindingSource::Mode => "Mode"@,
            GamepadBindingSource::LeftZ => "Left Z Axis"@,
            GamepadBindingSource::RightZ => "Right Z Axis"@,
            GamepadBindingSource::C => "C Button"@,
            GamepadBindingSource::Z => "Z Button"@,
            GamepadBindingSource::OtherAxis(axis) => "Axis "@ + decimal_digits(axis as nat),
            GamepadBindingSource::OtherButton(button) => "Button "@ + decimal_digits(button as nat),
        }
    }

    /// The name under which this source is shown to a user.
    pub fn label(&self) -> (text: String)
        ensures
            text@ == self.label_of(),
    {
        let name = match self {
            GamepadBindingSource::LeftTrigger => "Left Trigger",
            GamepadBindingSource::RightTrigger => "Right Trigger",
            GamepadBindingSource::LeftStickX => "Left Stick X",
            GamepadBindingSource::LeftStickY => "Left Stick Y",
            GamepadBindingSource::RightStickX => "Right Stick X",
            GamepadBindingSource::RightStickY => "Right Stick Y",
            GamepadBindingSource::South => "South",
            GamepadBindingSource::East => "East",
            GamepadBindingSource::North => "North",
            GamepadBindingSource::West => "West",
            GamepadBindingSource::LeftSecondaryTrigger => "Left Secondary Trigger",
            GamepadBindingSource::RightSecondaryTrigger => "Right Secondary Trigger",
            GamepadBindingSource::LeftStickClick => "Left Stick Click",
            GamepadBindingSource::RightStickClick => "Right Stick Click",
            GamepadBindingSource::DPadUp => "Dpad Up",
            GamepadBindingSource::DPadDown => "Dpad Down",
            GamepadBindingSource::DPadLeft => "Dpad Left",
            GamepadBindingSource::DPadRight => "Dpad Right",
            GamepadBindingSource::Select => "Select",
            GamepadBindingSource::Start => "Start",
            GamepadBindingSource::Mode => "Mode",
            GamepadBindingSource::LeftZ => "Left Z Axis",
            GamepadBindingSource::RightZ => "Right Z Axis",
            GamepadBindingSource::C => "C Button",
            GamepadBindingSource::Z => "Z Button",
            GamepadBindingSource::OtherAxis(axis) => {
                return "Axis ".to_owned().concat(decimal_string(*axis).as_str());
            },
            GamepadBindingSource::OtherButton(button) => {
                return "Button ".to_owned().concat(decimal_string(*button).as_str());
            },
        };
        name.to_owned()
    }

    /// Every source is an axis or a button, and never both.
    pub proof fn lemma_axis_xor_button(self)
        ensures
            self.axis_of() is Some <==> self.button_of() is None,
    {
    }

    /// Converting a source to its axis or button and back gives the source
    /// again.
    pub proof fn lemma_source_round_trip(self)
        ensures
            self.axis_of() matches Some(axis) ==> Self::of_axis(axis) == self,
            self.button_of() matches Some(button) ==> Self::of_button(button) == self,
    {
    }

    /// Converting an axis or a button to its source and back gives the axis
    /// or button again; no axis and button share a source.
    pub proof fn lemma_input_round_trip(axis: GamepadAxis, button: GamepadButton)
        ensures
            Self::of_axis(axis).axis_of() == Some(axis),
            Self::of_button(button).button_of() == Some(button),
            Self::of_axis(axis) != Self::of_button(button),
    {
    }
}

impl From<GamepadBindingSource> for GamepadInput {
    /// The axis or button that a device is asked for when `value` is read.
    fn from(value: GamepadBindingSource) -> (input: GamepadInput) {
        match value.as_axis_type() {
            Some(axis) => GamepadInput::Axis(axis),
            None => match value.as_button_type() {
                Some(button) => GamepadInput::Button(button),
                None => {
                    proof {
                        value.lemma_axis_xor_button();
                    }
                    vstd::pervasive::unreached()
                },
            },
        }
    }
}

impl vstd::std_specs::convert::FromSpecImpl<GamepadBindingSource> for GamepadInput {
    open spec fn obeys_from_spec() -> bool {
        true
    }

    open spec fn from_spec(value: GamepadBindingSource) -> GamepadInput {
        value.input_of()
    }
}

} // verus!
