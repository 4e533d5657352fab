//! The groups of states.
//!
//! Groups are the collection of closely related states.

use crate::mappings::state::{
    BackTriggerState, ButtonState, MicrophoneState, PluggedState, PowerState, StickState, USBState,
};
use vstd::prelude::*;

verus! {

/// A group of the action buttons.
///
/// Action buttons are defined as the buttons present in the right part of the
/// controller, represented as symbols (square, triangle, circle and cross to
/// be exact).
#[derive(Debug, Copy, Clone, PartialEq, Eq, Structural)]
pub struct ActionButtonGroup {
    /// A state of the square button.
    pub square: ButtonState,
    /// A state of the triangle button.
    pub triangle: ButtonState,
    /// A state of the circle button.
    pub circle: ButtonState,
    /// A state of the cross button.
    pub cross: ButtonState,
}

/// A group of the front triggers.
///
/// Front triggers are defined as the front buttons on top of the controller,
/// labeled L1 and R1.
#[derive(Debug, Copy, Clone, PartialEq, Eq, Structural)]
pub struct FrontTriggerGroup {
    /// A state of the L1 trigger button.
    pub l1: ButtonState,
    /// A state of the R1 trigger button.
    pub r1: ButtonState,
}

/// A group of the back triggers.
///
/// Back triggers are defined as the back buttons on top of the controller,
/// labeled L2 and R2.
#[derive(Debug, Copy, Clone, PartialEq, Eq, Structural)]
pub struct BackTriggerGroup {
    /// A state of the L2 trigger button.
    pub l2: BackTriggerState,
    /// A state of the R2 trigger button.
    pub r2: BackTriggerState,
}

/// A analog stick group.
#[derive(Debug, Copy, Clone, PartialEq, Eq, Structural)]
pub struct StickGroup {
    /// Left analog stick (L3).
    pub left: StickState,
    /// Right analog stick (R3).
    pub right: StickState,
}

/// A menu button group.
#[derive(Debug, Copy, Clone, PartialEq, Eq, Structural)]
pub struct MenuGroup {
    /// Create button.
    pub create: ButtonState,
    /// Options button.
    pub options: ButtonState,
    /// Home (PS) button.
    pub home: ButtonState,
    /// Mute button.
    pub mute: ButtonState,
}

/// A group of the controller power.
#[derive(Debug, Copy, Clone, PartialEq, Eq, Structural)]
pub struct PowerGroup {
    /// The state of the power.
    pub state: PowerState,
    /// Controller charged percent.
    pub percent: u8,
}

/// A group of external plugged devices.
#[derive(Debug, Copy, Clone, PartialEq, Eq, Structural)]
pub struct PluggedGroup {
    /// The state of the headphone.
    pub headphone: PluggedState,
    /// The state of the microphone.
    pub microphone: MicrophoneState,
    /// The state of the USB.
    pub usb: USBState,
    /// The state of the haptic low-pass filter.
    pub haptic_low_pass_filter: PluggedState,
}

} // verus!
