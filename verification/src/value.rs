//! Values as they leave and enter the library: numbers by their bit
//! patterns, and what one reading gives under one binding.

use vstd::prelude::*;

verus! {

/// A single-precision number, carried by its IEEE 754 bit pattern. The
/// library hands such numbers on and never computes with them.
#[derive(Clone, Copy, Debug, PartialEq, Eq, Hash, Structural)]
pub struct FloatBits(pub u32);

impl FloatBits {
    /// The bit pattern of positive zero.
    pub open spec fn zero() -> FloatBits {
        FloatBits(0)
    }
}

/// A two-dimensional vector of single-precision numbers.
#[derive(Clone, Copy, Debug, PartialEq, Eq, Hash, Structural)]
pub struct VectorBits {
    /// The horizontal component.
    pub x: FloatBits,
    /// The vertical component.
    pub y: FloatBits,
}

/// The modifiers of a binding that change how its source is read.
#[derive(Clone, Copy, Debug, PartialEq, Eq, Hash, Structural)]
pub struct BindingModifications {
    /// Whether the reading is multiplied by the time that the last pass
    /// took.
    pub premul_delta_time: bool,
    /// Whether the reading is taken as the device reports it, without
    /// being clamped to the usual range.
    pub unbounded: bool,
}

/// What is asked of a binding, whatever the device class: its modifiers,
/// and the shapes in which its value is wanted.
#[derive(Clone, Copy, Debug, PartialEq, Eq, Hash, Structural)]
pub struct GenericBindingData {
    /// The modifiers of the binding.
    pub modifications: BindingModifications,
    /// Whether the value is wanted as a boolean.
    pub is_bool: bool,
    /// Whether the value is wanted as a number.
    pub is_scalar: bool,
    /// Whether the value is wanted as a two-dimensional vector.
    pub is_vector: bool,
}

/// What one reading gives under one binding, in each of the three shapes.
/// A shape that was not asked for is absent, which is not the same as
/// zero.
#[derive(Clone, Copy, Debug, PartialEq, Eq, Hash, Structural)]
pub struct BindingValue {
    /// The value as a vector.
    pub vector: Option<VectorBits>,
    /// The value as a boolean.
    pub boolean: Option<bool>,
    /// The value as a number.
    pub scalar: Option<FloatBits>,
}

impl BindingValue {
    /// The value that is absent in every shape.
    pub open spec fn absent() -> BindingValue {
        BindingValue { vector: None, boolean: None, scalar: None }
    }
}

impl Default for BindingValue {
    fn default() -> (value: Self)
        ensures
            value == BindingValue::absent(),
    {
        BindingValue { vector: None, boolean: None, scalar: None }
    }
}

} // verus!
