//! A simplified, flat vocabulary of controller states.
//!
//! These types describe the controller's face at a coarser grain than the
//! [`mappings`] module: triggers carry an optional axis instead of an effect
//! machine, and the directional pad is four independent buttons instead of a
//! compass value.
//!
//! [`mappings`]: crate::mappings

use crate::errors::{DecodeError, ReportField};
use vstd::prelude::*;

verus! {

/// The state of the action buttons.
#[derive(Debug)]
pub struct ActionState {
    /// The state of the cross button.
    pub cross: ButtonState,
    /// The state of the square button.
    pub square: ButtonState,
    /// The state of the triangle button.
    pub triangle: ButtonState,
    /// The state of the circle button.
    pub circle: ButtonState,
}

/// The state of the directional buttons.
#[derive(Debug)]
pub struct DirectionalState {
    /// The state of the bottom directional button.
    pub bottom: ButtonState,
    /// The state of the left directional button.
    pub left: ButtonState,
    /// The state of the top directional button.
    pub top: ButtonState,
    /// The state of the right directional button.
    pub right: ButtonState,
}

/// The state of the triggers.
#[derive(Debug)]
pub struct TriggerState {
    /// The state of the L1 trigger.
    pub l1: Trigger,
    /// The state of the R1 trigger.
    pub r1: Trigger,
    /// The state of the L2 trigger.
    pub l2: Trigger,
    /// The state of the R2 trigger.
    pub r2: Trigger,
}

/// The state of a trigger.
#[derive(Debug)]
pub struct Trigger {
    /// Whether the trigger is pressed or not.
    pub state: ButtonState,
    /// The axis (i.e. pressed amount) of the trigger.
    ///
    /// Note that the only triggers that have axis are L2 and R2.
    pub axis: Option<Axis>,
}

/// The axis of a trigger.
#[derive(Debug)]
pub struct Axis(pub u8);

/// The state of a button.
#[derive(Debug, Copy, Clone, PartialEq, Eq, Structural)]
pub enum ButtonState {
    /// Button is released.
    Released,
    /// Button is pressed.
    Pressed,
}

impl ButtonState {
    /// Convert a raw code into a button state, rejecting codes outside
    /// {0, 1}.
    pub fn from_raw(value: u8) -> (r: Result<ButtonState, DecodeError>)
        ensures
            value == 0 ==> r == Ok::<ButtonState, DecodeError>(ButtonState::Released),
            value == 1 ==> r == Ok::<ButtonState, DecodeError>(ButtonState::Pressed),
            value >= 2 ==> r == Err::<ButtonState, DecodeError>(
                (DecodeError::InvalidEnumerationCode { field: ReportField::Button, value }),
            ),
    {
        match value {
            0 => Ok(ButtonState::Released),
            1 => Ok(ButtonState::Pressed),
            _ => Err(DecodeError::InvalidEnumerationCode { field: ReportField::Button, value }),
        }
    }
}

/// The state of the analog sticks.
#[derive(Debug)]
pub struct AnalogState {
    /// The state of the left analog.
    pub left: StickState,
    /// The state of the right analog.
    pub right: StickState,
}

/// The state of a analog stick.
#[derive(Debug)]
pub struct StickState {
    /// Whether the stick is pressed or not.
    pub state: ButtonState,
    /// The coordinates of the stick.
    pub coordinates: StickCoord,
}

/// The Coordinates of a stick.
#[derive(Debug)]
pub struct StickCoord {
    /// The x coordinate.
    pub x: u8,
    /// The y coordinate.
    pub y: u8,
}

} // verus!
