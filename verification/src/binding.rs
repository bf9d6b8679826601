//! Bindings of gamepad sources to actions, and the ids by which a binding
//! is told from the others.

use crate::source::GamepadBindingSource;
use std::hash::{DefaultHasher, Hasher};
use vstd::prelude::*;
use vstd::std_specs::hash::DefaultHasherAdditionalSpecFns;

verus! {

/// When a button counts as triggering its action.
#[derive(Clone, Copy, Debug, PartialEq, Eq, Hash, Structural)]
pub enum ButtonInputBehavior {
    /// In the pass in which the button goes down.
    JustPressed,
    /// For as long as the button is held.
    Pressed,
    /// In the pass in which the button comes up.
    JustReleased,
}

impl Default for ButtonInputBehavior {
    fn default() -> (behavior: Self)
        ensures
            behavior == ButtonInputBehavior::Pressed,
    {
        ButtonInputBehavior::Pressed
    }
}

/// The component of a two-dimensional value that a binding feeds.
#[derive(Clone, Copy, Debug, PartialEq, Eq, Hash, Structural)]
pub enum InputAxis {
    /// The horizontal component.
    X,
    /// The vertical component.
    Y,
}

impl Default for InputAxis {
    fn default() -> (axis: Self)
        ensures
            axis == InputAxis::X,
    {
        InputAxis::X
    }
}

/// The sign with which a binding feeds its value.
#[derive(Clone, Copy, Debug, PartialEq, Eq, Hash, Structural)]
pub enum InputAxisDirection {
    /// The reading as it is.
    Positive,
    /// The reading negated.
    Negative,
}

impl Default for InputAxisDirection {
    fn default() -> (direction: Self)
        ensures
            direction == InputAxisDirection::Positive,
    {
        InputAxisDirection::Positive
    }
}

impl InputAxisDirection {
    /// The factor by which this direction multiplies a reading: 1 or -1.
    pub open spec fn multiplier_of(self) -> int {
        match self {
            InputAxisDirection::Positive => 1,
            InputAxisDirection::Negative => -1,
        }
    }

    /// The factor by which this direction multiplies a reading: 1 or -1.
    pub fn as_multiplier(&self) -> (factor: i8)
        ensures
            factor == self.multiplier_of(),
    {
        match self {
            InputAxisDirection::Positive => 1,
            InputAxisDirection::Negative => -1,
        }
    }
}

impl GamepadBindingSource {
    /// The number by which a source's kind is written into a hash.
    pub open spec fn tag_of(self) -> u8 {
        match self {
            GamepadBindingSource::LeftStickX => 0,
            GamepadBindingSource::LeftStickY => 1,
            GamepadBindingSource::RightStickX => 2,
            GamepadBindingSource::RightStickY => 3,
            GamepadBindingSource::South => 4,
            GamepadBindingSource::East => 5,
            GamepadBindingSource::North => 6,
            GamepadBindingSource::West => 7,
            GamepadBindingSource::LeftTrigger => 8,
            GamepadBindingSource::LeftSecondaryTrigger => 9,
            GamepadBindingSource::RightTrigger => 10,
            GamepadBindingSource::RightSecondaryTrigger => 11,
            GamepadBindingSource::LeftStickClick => 12,
            GamepadBindingSource::RightStickClick => 13,
            GamepadBindingSource::DPadUp => 14,
            GamepadBindingSource::DPadDown => 15,
            GamepadBindingSource::DPadLeft => 16,
            GamepadBindingSource::DPadRight => 17,
            GamepadBindingSource::Select => 18,
            GamepadBindingSource::Start => 19,
            GamepadBindingSource::Mode => 20,
            GamepadBindingSource::LeftZ => 21,
            GamepadBindingSource::RightZ => 22,
            GamepadBindingSource::C => 23,
            GamepadBindingSource::Z => 24,
            GamepadBindingSource::OtherAxis(_) => 25,
            GamepadBindingSource::OtherButton(_) => 26,
        }
    }

    /// The device-specific number of a non-standard axis or button, and 0
    /// for every other source.
    pub open spec fn number_of(self) -> u8 {
        match self {
            GamepadBindingSource::OtherAxis(n) => n,
            GamepadBindingSource::OtherButton(n) => n,
            _ => 0,
        }
    }

    /// The two bytes that stand for a source in a hash: its kind and its
    /// number.
    pub open spec fn hash_bytes(self) -> Seq<u8> {
        seq![self.tag_of(), self.number_of()]
    }

    /// The id of every binding that reads this source: the hash of the
    /// source's two bytes, written to a fresh hasher in one piece.
    pub open spec fn id_of(self) -> u64 {
        DefaultHasher::spec_finish(seq![self.hash_bytes()])
    }

    /// No two sources are written into a hash as the same bytes.
    pub proof fn lemma_hash_bytes_injective(self, other: GamepadBindingSource)
        requires
            self.hash_bytes() == other.hash_bytes(),
        ensures
            self == other,
    {
    }

    /// The two bytes that stand for this source in a hash.
    fn encode(&self) -> (bytes: [u8; 2])
        ensures
            bytes@ == self.hash_bytes(),
    {
        let (tag, number): (u8, u8) = match self {
            GamepadBindingSource::LeftStickX => (0, 0),
            GamepadBindingSource::LeftStickY => (1, 0),
            GamepadBindingSource::RightStickX => (2, 0),
            GamepadBindingSource::RightStickY => (3, 0),
            GamepadBindingSource::South => (4, 0),
            GamepadBindingSource::East => (5, 0),
            GamepadBindingSource::North => (6, 0),
            GamepadBindingSource::West => (7, 0),
            GamepadBindingSource::LeftTrigger => (8, 0),
            GamepadBindingSource::LeftSecondaryTrigger => (9, 0),
            GamepadBindingSource::RightTrigger => (10, 0),
            GamepadBindingSource::RightSecondaryTrigger => (11, 0),
            GamepadBindingSource::LeftStickClick => (12, 0),
            GamepadBindingSource::RightStickClick => (13, 0),
            GamepadBindingSource::DPadUp => (14, 0),
            GamepadBindingSource::DPadDown => (15, 0),
            GamepadBindingSource::DPadLeft => (16, 0),
            GamepadBindingSource::DPadRight => (17, 0),
            GamepadBindingSource::Select => (18, 0),
            GamepadBindingSource::Start => (19, 0),
            GamepadBindingSource::Mode => (20, 0),
            GamepadBindingSource::LeftZ => (21, 0),
            GamepadBindingSource::RightZ => (22, 0),
            GamepadBindingSource::C => (23, 0),
            GamepadBindingSource::Z => (24, 0),
            GamepadBindingSource::OtherAxis(n) => (25, *n),
            GamepadBindingSource::OtherButton(n) => (26, *n),
        };
        let bytes = [tag, number];
        bytes
    }
}

/// One physical source bound to an action, with the way its reading is
/// interpreted.
#[derive(Clone, Copy, Debug, PartialEq, Eq, Hash, Structural)]
pub struct GamepadBinding {
    /// The physical source that is read.
    pub source: GamepadBindingSource,
    /// When a button source counts as triggering.
    pub button_behavior: ButtonInputBehavior,
    /// The component of a two-dimensional value that the reading feeds.
    pub axis: InputAxis,
    /// The sign with which the reading is fed.
    pub axis_dir: InputAxisDirection,
}

impl GamepadBinding {
    /// The id of this binding: that of its source.
    pub open spec fn id_spec(self) -> u64 {
        self.source.id_of()
    }

    /// A binding of `source` that triggers while pressed and feeds the
    /// horizontal component with the reading as it is.
    pub fn new(source: GamepadBindingSource) -> (binding: GamepadBinding)
        ensures
            binding == (GamepadBinding {
                source,
                button_behavior: ButtonInputBehavior::Pressed,
                axis: InputAxis::X,
                axis_dir: InputAxisDirection::Positive,
            }),
    {
        GamepadBinding {
            source,
            button_behavior: ButtonInputBehavior::default(),
            axis: InputAxis::default(),
            axis_dir: InputAxisDirection::default(),
        }
    }

    /// This binding, triggering in the pass in which the button goes down.
    pub fn button_just_pressed(self) -> (binding: Self)
        ensures
            binding == (GamepadBinding { button_behavior: ButtonInputBehavior::JustPressed, ..self }),
    {
        let mut binding = self;
        binding.button_behavior = ButtonInputBehavior::JustPressed;
        binding
    }

    /// This binding, triggering for as long as the button is held.
    pub fn button_pressed(self) -> (binding: Self)
        ensures
            binding == (GamepadBinding { button_behavior: ButtonInputBehavior::Pressed, ..self }),
    {
        let mut binding = self;
        binding.button_behavior = ButtonInputBehavior::Pressed;
        binding
    }

    /// This binding, triggering in the pass in which the button comes up.
    pub fn button_just_released(self) -> (binding: Self)
        ensures
            binding == (GamepadBinding {
                button_behavior: ButtonInputBehavior::JustReleased,
                ..self
            }),
    {
        let mut binding = self;
        binding.button_behavior = ButtonInputBehavior::JustReleased;
        binding
    }

    /// This binding, feeding the horizontal component.
    pub fn x_axis(self) -> (binding: Self)
        ensures
            binding == (GamepadBinding { axis: InputAxis::X, ..self }),
    {
        let mut binding = self;
        binding.axis = InputAxis::X;
        binding
    }

    /// This binding, feeding the vertical component.
    pub fn y_axis(self) -> (binding: Self)
        ensures
            binding == (GamepadBinding { axis: InputAxis::Y, ..self }),
    {
        let mut binding = self;
        binding.axis = InputAxis::Y;
        binding
    }

    /// This binding, feeding the reading as it is.
    pub fn positive(self) -> (binding: Self)
        ensures
            binding == (GamepadBinding { axis_dir: InputAxisDirection::Positive, ..self }),
    {
        let mut binding = self;
        binding.axis_dir = InputAxisDirection::Positive;
        binding
    }

    /// This binding, feeding the reading negated.
    pub fn negative(self) -> (binding: Self)
        ensures
            binding == (GamepadBinding { axis_dir: InputAxisDirection::Negative, ..self }),
    {
        let mut binding = self;
        binding.axis_dir = InputAxisDirection::Negative;
        binding
    }

    /// Two bindings of one source have one id, whatever their button
    /// behavior, axis and direction.
    pub proof fn lemma_id_depends_on_source_only(self, other: GamepadBinding)
        requires
            self.source == other.source,
        ensures
            self.id_spec() == other.id_spec(),
    {
    }
}

/// The id of a binding: the hash of its source. The button behavior, the
/// axis and the direction do not enter into it.
pub fn get_binding_id(binding: &GamepadBinding) -> (id: u64)
    ensures
        id == binding.id_spec(),
        id == binding.source.id_of(),
{
    let mut hasher = DefaultHasher::new();
    let bytes = binding.source.encode();
    hasher.write(bytes.as_slice());
    hasher.finish()
}

/// The gamepad bindings of one action, in the order in which they were
/// bound.
#[derive(Debug, PartialEq, Eq)]
pub struct GamepadBindings {
    /// The bindings, oldest first.
    pub bindings: Vec<GamepadBinding>,
}

impl View for GamepadBindings {
    type V = Seq<GamepadBinding>;

    open spec fn view(&self) -> Seq<GamepadBinding> {
        self.bindings@
    }
}

impl Clone for GamepadBindings {
    fn clone(&self) -> (copy: Self)
        ensures
            copy@ == self@,
    {
        let mut bindings: Vec<GamepadBinding> = Vec::new();
        let mut i: usize = 0;
        while i < self.bindings.len()
            invariant
                i <= self.bindings.len(),
                bindings@ == self.bindings@.take(i as int),
            decreases self.bindings.len() - i,
        {
            bindings.push(self.bindings[i]);
            i += 1;
        }
        GamepadBindings { bindings }
    }
}

impl Default for GamepadBindings {
    fn default() -> (bindings: Self)
        ensures
            bindings@ == Seq::<GamepadBinding>::empty(),
    {
        GamepadBindings { bindings: Vec::new() }
    }
}

impl GamepadBindings {
    /// The ids of a sequence of bindings, in their order.
    pub open spec fn ids_of(bindings: Seq<GamepadBinding>) -> Seq<u64> {
        Seq::new(bindings.len(), |i: int| bindings[i].id_spec())
    }

    /// No bindings.
    pub fn new() -> (bindings: Self)
        ensures
            bindings@ == Seq::<GamepadBinding>::empty(),
    {
        GamepadBindings { bindings: Vec::new() }
    }

    /// These bindings and, behind them, `binding`.
    pub fn bind(self, binding: GamepadBinding) -> (bindings: Self)
        ensures
            bindings@ == self@.push(binding),
    {
        let mut bindings = self;
        bindings.bindings.push(binding);
        bindings
    }

    /// These bindings and, behind them, one of `x_axis` that feeds the
    /// horizontal component and one of `y_axis` that feeds the vertical
    /// component, both with the reading as it is.
    pub fn add_stick(self, x_axis: GamepadBindingSource, y_axis: GamepadBindingSource) -> (bindings:
        Self)
        ensures
            bindings@ == self@.push(
                GamepadBinding {
                    source: x_axis,
                    button_behavior: ButtonInputBehavior::Pressed,
                    axis: InputAxis::X,
                    axis_dir: InputAxisDirection::Positive,
                },
            ).push(
                GamepadBinding {
                    source: y_axis,
                    button_behavior: ButtonInputBehavior::Pressed,
                    axis: InputAxis::Y,
                    axis_dir: InputAxisDirection::Positive,
                },
            ),
    {
        self.bind(GamepadBinding::new(x_axis).x_axis().positive()).bind(
            GamepadBinding::new(y_axis).y_axis().positive(),
        )
    }

    /// The id of each binding, in the order of the bindings.
    pub fn binding_ids(&self) -> (ids: Vec<u64>)
        ensures
            ids@ == Self::ids_of(self@),
    {
        let mut ids: Vec<u64> = Vec::new();
        let mut i: usize = 0;
        while i < self.bindings.len()
            invariant
                i <= self.bindings.len(),
                ids@.len() == i,
                forall|j: int| 0 <= j < i ==> ids@[j] == self.bindings@[j].id_spec(),
            decreases self.bindings.len() - i,
        {
            ids.push(get_binding_id(&self.bindings[i]));
            i += 1;
        }
        ids
    }
}

} // verus!
