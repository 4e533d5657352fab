//! The states of the controller.
//!
//! States are atomic parts of the controller. Every closed-domain field has a
//! fallible constructor from its raw code: a raw code outside the documented
//! domain is rejected with [`DecodeError::InvalidEnumerationCode`], never
//! coerced to a default — a corrupted buffer must surface as an error, not as
//! a valid-looking state.

use crate::errors::{DecodeError, ReportField};
use vstd::prelude::*;

verus! {

/// The state of a button.
///
/// In the DualSense controller, where all the buttons are digital, there can
/// be only two states, released and pressed.
#[derive(Debug, Copy, Clone, PartialEq, Eq, Structural)]
pub enum ButtonState {
    /// The button is released.
    Released,
    /// The button is pressed.
    Pressed,
}

impl ButtonState {
    /// The conversion from a raw one-bit code; the domain is {0, 1}.
    pub open spec fn spec_from(value: u8) -> Result<ButtonState, DecodeError> {
        if value == 0 {
            Ok(ButtonState::Released)
        } else if value == 1 {
            Ok(ButtonState::Pressed)
        } else {
            Err(DecodeError::InvalidEnumerationCode { field: ReportField::Button, value })
        }
    }

    /// Convert a raw code into a button state, rejecting codes outside {0, 1}.
    pub fn from_raw(value: u8) -> (r: Result<ButtonState, DecodeError>)
        ensures
            r == ButtonState::spec_from(value),
    {
        match value {
            0 => Ok(ButtonState::Released),
            1 => Ok(ButtonState::Pressed),
            _ => Err(DecodeError::InvalidEnumerationCode { field: ReportField::Button, value }),
        }
    }

    /// The raw code this state decodes from.
    pub open spec fn spec_raw(self) -> u8 {
        match self {
            ButtonState::Released => 0,
            ButtonState::Pressed => 1,
        }
    }

    /// Return the raw code this state decodes from.
    pub fn raw(self) -> (r: u8)
        ensures
            r == self.spec_raw(),
    {
        match self {
            ButtonState::Released => 0,
            ButtonState::Pressed => 1,
        }
    }

    /// Return `true` if the button is being pressed and `false` otherwise.
    pub fn is_pressed(&self) -> (r: bool)
        ensures
            r == (*self is Pressed),
    {
        *self == ButtonState::Pressed
    }
}

/// A back trigger axis.
#[derive(Debug, Copy, Clone, PartialEq, Eq, Structural)]
pub struct Axis(pub u8);

impl Axis {
    /// Wrap a raw axis reading.
    pub fn new(value: u8) -> (r: Self)
        ensures
            r.0 == value,
    {
        Axis(value)
    }

    /// The raw axis reading.
    pub fn value(&self) -> (r: u8)
        ensures
            r == self.0,
    {
        self.0
    }
}

/// Coordinates of the analog stick.
#[derive(Debug, Copy, Clone, PartialEq, Eq, Structural)]
pub struct StickCoordinates {
    /// X coordinate.
    pub x: u8,
    /// Y coordinate.
    pub y: u8,
}

/// The state of the analog stick.
#[derive(Debug, Copy, Clone, PartialEq, Eq, Structural)]
pub struct StickState {
    /// The state of the stick's own button (L3 or R3).
    pub state: ButtonState,
    /// The position of the stick.
    pub position: StickCoordinates,
}

impl StickState {
    /// Return the state of the analog stick button (either L3 or R3).
    pub fn button(&self) -> (r: ButtonState)
        ensures
            r == self.state,
    {
        self.state
    }

    /// Get the `X` coordinate of the analog stick.
    pub fn x(&self) -> (r: u8)
        ensures
            r == self.position.x,
    {
        self.position.x
    }

    /// Get the `Y` coordinate of the analog stick.
    pub fn y(&self) -> (r: u8)
        ensures
            r == self.position.y,
    {
        self.position.y
    }
}

/// Angular velocity of the controller (used for understanding orientation).
#[derive(Debug, Copy, Clone, PartialEq, Eq, Structural)]
pub struct AngularVelocityState {
    /// X velocity.
    pub x: i16,
    /// Y velocity.
    pub y: i16,
    /// Z velocity.
    pub z: i16,
}

impl AngularVelocityState {
    /// Get the `X` component of the angular velocity.
    pub fn x(&self) -> (r: i16)
        ensures
            r == self.x,
    {
        self.x
    }

    /// Get the `Y` component of the angular velocity.
    pub fn y(&self) -> (r: i16)
        ensures
            r == self.y,
    {
        self.y
    }

    /// Get the `Z` component of the angular velocity.
    pub fn z(&self) -> (r: i16)
        ensures
            r == self.z,
    {
        self.z
    }
}

/// Acceleration of the controller (used for understanding movement).
#[derive(Debug, Copy, Clone, PartialEq, Eq, Structural)]
pub struct AccelerationState {
    /// X acceleration.
    pub x: i16,
    /// Y acceleration.
    pub y: i16,
    /// Z acceleration.
    pub z: i16,
}

impl AccelerationState {
    /// Get the `X` component of the acceleration.
    pub fn x(&self) -> (r: i16)
        ensures
            r == self.x,
    {
        self.x
    }

    /// Get the `Y` component of the acceleration.
    pub fn y(&self) -> (r: i16)
        ensures
            r == self.y,
    {
        self.y
    }

    /// Get the `Z` component of the acceleration.
    pub fn z(&self) -> (r: i16)
        ensures
            r == self.z,
    {
        self.z
    }
}

/// Temperature of the controller.
///
/// The cross-unit conversions below are lossy integer round trips: each one
/// applies the linear unit conversion and then truncates toward zero, so
/// converting back and forth is not guaranteed to be idempotent at the bit
/// level. This truncation is deliberate and part of the contract.
#[derive(Debug, Copy, Clone, PartialEq, Eq, Structural)]
pub enum TemperatureState {
    /// Temperature in Celsius.
    Celsius(i8),
    /// Temperature in Fahrenheit.
    Fahrenheit(u8),
    /// Temperature in Kelvin.
    Kelvin(u16),
}

impl TemperatureState {
    /// Return the temperature as Celsius.
    ///
    /// Fahrenheit readings below 32 °F and Kelvin readings below 273 K are
    /// outside this conversion's domain. A Kelvin reading more than 127
    /// degrees above 273 K does not fit the signed Celsius byte and wraps
    /// into it, keeping only the low eight bits of the difference.
    pub fn as_celcius(&self) -> (r: Self)
        requires
            *self matches TemperatureState::Fahrenheit(t) ==> t >= 32,
            *self matches TemperatureState::Kelvin(t) ==> t >= 273,
        ensures
            *self matches TemperatureState::Celsius(t) ==> r == TemperatureState::Celsius(t),
            *self matches TemperatureState::Fahrenheit(t) ==> r == TemperatureState::Celsius(
                (((t - 32) * 5 / 9) as i8),
            ),
            *self matches TemperatureState::Kelvin(t) ==> r == TemperatureState::Celsius(
                crate::bitfield::spec_wrap_i8(t - 273),
            ),
    {
        match *self {
            TemperatureState::Celsius(t) => TemperatureState::Celsius(t),
            TemperatureState::Fahrenheit(t) => {
                let c: u16 = (t - 32) as u16 * 5 / 9;
                TemperatureState::Celsius(c as i8)
            },
            TemperatureState::Kelvin(t) => {
                let low: u16 = (t - 273) % 256;
                TemperatureState::Celsius(crate::bitfield::i8_from_bits(low as u8))
            },
        }
    }

    /// Return the temperature as Fahrenheit.
    ///
    /// Celsius readings below 0 °C clamp to 32 °F. Readings whose Fahrenheit
    /// value would exceed 255 °F (Celsius above 124 °C, Kelvin above 397 K)
    /// are outside this conversion's domain.
    pub fn as_fahrenheit(&self) -> (r: Self)
        requires
            *self matches TemperatureState::Celsius(t) ==> t <= 124,
            *self matches TemperatureState::Kelvin(t) ==> 273 <= t <= 397,
        ensures
            *self matches TemperatureState::Celsius(t) ==> r == (if t < 0 {
                TemperatureState::Fahrenheit(32u8)
            } else {
                TemperatureState::Fahrenheit(((t * 9 / 5 + 32) as u8))
            }),
            *self matches TemperatureState::Fahrenheit(t) ==> r == TemperatureState::Fahrenheit(t),
            *self matches TemperatureState::Kelvin(t) ==> r == TemperatureState::Fahrenheit(
                (((t - 273) * 9 / 5 + 32) as u8),
            ),
    {
        match *self {
            TemperatureState::Celsius(t) => {
                if t < 0 {
                    TemperatureState::Fahrenheit(32)
                } else {
                    let f: u16 = t as u16 * 9 / 5 + 32;
                    TemperatureState::Fahrenheit(f as u8)
                }
            },
            TemperatureState::Fahrenheit(t) => TemperatureState::Fahrenheit(t),
            TemperatureState::Kelvin(t) => {
                let f: u16 = (t - 273) * 9 / 5 + 32;
                TemperatureState::Fahrenheit(f as u8)
            },
        }
    }

    /// Return the temperature as Kelvin.
    ///
    /// Fahrenheit readings below 32 °F are outside this conversion's domain.
    pub fn as_kelvin(&self) -> (r: Self)
        requires
            *self matches TemperatureState::Fahrenheit(t) ==> t >= 32,
        ensures
            *self matches TemperatureState::Celsius(t) ==> r == TemperatureState::Kelvin(
                ((t + 273) as u16),
            ),
            *self matches TemperatureState::Fahrenheit(t) ==> r == TemperatureState::Kelvin(
                (((t - 32) * 5 / 9 + 273) as u16),
            ),
            *self matches TemperatureState::Kelvin(t) ==> r == TemperatureState::Kelvin(t),
    {
        match *self {
            TemperatureState::Celsius(t) => {
                let k: u16 = (t as i16 + 273) as u16;
                TemperatureState::Kelvin(k)
            },
            TemperatureState::Fahrenheit(t) => {
                let k: u16 = (t - 32) as u16 * 5 / 9 + 273;
                TemperatureState::Kelvin(k)
            },
            TemperatureState::Kelvin(t) => TemperatureState::Kelvin(t),
        }
    }
}

/// Data of finger movement in the touchpad.
#[derive(Debug, Copy, Clone, PartialEq, Eq)]
pub struct FingerData {
    /// Index of the finger.
    ///
    /// Every time a finger touches the touchpad, the index is incremented by
    /// one, as to enable differentiation of each touch. It is an opaque
    /// counter: nothing further is asserted about its progression.
    pub index: u8,
    /// If the finger is touching the touchpad.
    pub is_touching: bool,
    /// X coordinate of the touch (12 bits).
    pub x: u16,
    /// Y coordinate of the touch (12 bits).
    pub y: u16,
}

/// The state of the touchpad.
#[derive(Debug, Copy, Clone, PartialEq, Eq)]
pub struct TouchPadState {
    /// If the touchpad is being clicked or not.
    pub state: ButtonState,
    /// Finger data of up to two fingers.
    pub finger: [FingerData; 2],
    /// The report's touch timestamp byte.
    pub timestamp: u8,
}

/// The power state of the controller.
#[derive(Debug, Copy, Clone, PartialEq, Eq, Structural)]
pub enum PowerState {
    /// Controller is discharging.
    Discharging,
    /// Controller is charging.
    Charging,
    /// Controller has full battery.
    Complete,
    /// Controller is detecting abnormal voltages.
    AbnormalVoltage,
    /// Controller is detecting abnormal temperatures.
    AbnormalTemperature,
    /// Controller cannot charge.
    ChargingError,
}

impl PowerState {
    /// The conversion from a raw charge-state nibble; the domain is
    /// {0x00, 0x01, 0x02, 0x0A, 0x0B, 0x0F}.
    pub open spec fn spec_from(value: u8) -> Result<PowerState, DecodeError> {
        if value == 0x00 {
            Ok(PowerState::Discharging)
        } else if value == 0x01 {
            Ok(PowerState::Charging)
        } else if value == 0x02 {
            Ok(PowerState::Complete)
        } else if value == 0x0A {
            Ok(PowerState::AbnormalVoltage)
        } else if value == 0x0B {
            Ok(PowerState::AbnormalTemperature)
        } else if value == 0x0F {
            Ok(PowerState::ChargingError)
        } else {
            Err(DecodeError::InvalidEnumerationCode { field: ReportField::Power, value })
        }
    }

    /// Convert a raw charge-state nibble into a power state, rejecting codes
    /// outside the documented domain.
    pub fn from_raw(value: u8) -> (r: Result<PowerState, DecodeError>)
        ensures
            r == PowerState::spec_from(value),
    {
        match value {
            0x00 => Ok(PowerState::Discharging),
            0x01 => Ok(PowerState::Charging),
            0x02 => Ok(PowerState::Complete),
            0x0A => Ok(PowerState::AbnormalVoltage),
            0x0B => Ok(PowerState::AbnormalTemperature),
            0x0F => Ok(PowerState::ChargingError),
            _ => Err(DecodeError::InvalidEnumerationCode { field: ReportField::Power, value }),
        }
    }

    /// The raw code this state decodes from.
    pub open spec fn spec_raw(self) -> u8 {
        match self {
            PowerState::Discharging => 0x00,
            PowerState::Charging => 0x01,
            PowerState::Complete => 0x02,
            PowerState::AbnormalVoltage => 0x0A,
            PowerState::AbnormalTemperature => 0x0B,
            PowerState::ChargingError => 0x0F,
        }
    }

    /// Return the raw code this state decodes from.
    pub fn raw(self) -> (r: u8)
        ensures
            r == self.spec_raw(),
    {
        match self {
            PowerState::Discharging => 0x00,
            PowerState::Charging => 0x01,
            PowerState::Complete => 0x02,
            PowerState::AbnormalVoltage => 0x0A,
            PowerState::AbnormalTemperature => 0x0B,
            PowerState::ChargingError => 0x0F,
        }
    }
}

/// The state of a peripheral device.
#[derive(Debug, Copy, Clone, PartialEq, Eq, Structural)]
pub enum PluggedState {
    /// The device is unplugged.
    Unplugged,
    /// The device is plugged.
    Plugged,
}

impl PluggedState {
    /// The conversion from a raw one-bit code; the domain is {0, 1}.
    pub open spec fn spec_from(value: u8) -> Result<PluggedState, DecodeError> {
        if value == 0 {
            Ok(PluggedState::Unplugged)
        } else if value == 1 {
            Ok(PluggedState::Plugged)
        } else {
            Err(DecodeError::InvalidEnumerationCode { field: ReportField::Plugged, value })
        }
    }

    /// Convert a raw code into a plugged state, rejecting codes outside {0, 1}.
    pub fn from_raw(value: u8) -> (r: Result<PluggedState, DecodeError>)
        ensures
            r == PluggedState::spec_from(value),
    {
        match value {
            0 => Ok(PluggedState::Unplugged),
            1 => Ok(PluggedState::Plugged),
            _ => Err(DecodeError::InvalidEnumerationCode { field: ReportField::Plugged, value }),
        }
    }

    /// The raw code this state decodes from.
    pub open spec fn spec_raw(self) -> u8 {
        match self {
            PluggedState::Unplugged => 0,
            PluggedState::Plugged => 1,
        }
    }

    /// Return the raw code this state decodes from.
    pub fn raw(self) -> (r: u8)
        ensures
            r == self.spec_raw(),
    {
        match self {
            PluggedState::Unplugged => 0,
            PluggedState::Plugged => 1,
        }
    }

    /// Return `true` if the peripheral device is plugged and `false` otherwise.
    pub fn is_plugged(&self) -> (r: bool)
        ensures
            r == (*self is Plugged),
    {
        *self == PluggedState::Plugged
    }
}

/// The state of a microphone muted status.
#[derive(Debug, Copy, Clone, PartialEq, Eq, Structural)]
pub enum MutedState {
    /// The device is unmuted.
    Unmuted,
    /// The device is muted.
    Muted,
}

impl MutedState {
    /// The conversion from a raw one-bit code; the domain is {0, 1}.
    pub open spec fn spec_from(value: u8) -> Result<MutedState, DecodeError> {
        if value == 0 {
            Ok(MutedState::Unmuted)
        } else if value == 1 {
            Ok(MutedState::Muted)
        } else {
            Err(DecodeError::InvalidEnumerationCode { field: ReportField::Muted, value })
        }
    }

    /// Convert a raw code into a muted state, rejecting codes outside {0, 1}.
    pub fn from_raw(value: u8) -> (r: Result<MutedState, DecodeError>)
        ensures
            r == MutedState::spec_from(value),
    {
        match value {
            0 => Ok(MutedState::Unmuted),
            1 => Ok(MutedState::Muted),
            _ => Err(DecodeError::InvalidEnumerationCode { field: ReportField::Muted, value }),
        }
    }

    /// The raw code this state decodes from.
    pub open spec fn spec_raw(self) -> u8 {
        match self {
            MutedState::Unmuted => 0,
            MutedState::Muted => 1,
        }
    }

    /// Return the raw code this state decodes from.
    pub fn raw(self) -> (r: u8)
        ensures
            r == self.spec_raw(),
    {
        match self {
            MutedState::Unmuted => 0,
            MutedState::Muted => 1,
        }
    }

    /// Return `true` if the microphone is muted and `false` otherwise.
    pub fn is_muted(&self) -> (r: bool)
        ensures
            r == (*self is Muted),
    {
        *self == MutedState::Muted
    }
}

/// The state of the microphone.
#[derive(Debug, Copy, Clone, PartialEq, Eq, Structural)]
pub struct MicrophoneState {
    /// Is the microphone plugged.
    pub state: PluggedState,
    /// Is the microphone muted.
    pub muted: MutedState,
    /// Is the microphone external.
    pub external: bool,
}

impl MicrophoneState {
    /// Get the plugged state of the microphone.
    pub fn plugged(&self) -> (r: PluggedState)
        ensures
            r == self.state,
    {
        self.state
    }

    /// Return `true` if the microphone is plugged and `false` otherwise.
    pub fn is_plugged(&self) -> (r: bool)
        ensures
            r == (self.state is Plugged),
    {
        self.state.is_plugged()
    }

    /// Get the muted state of the microphone.
    pub fn muted(&self) -> (r: MutedState)
        ensures
            r == self.muted,
    {
        self.muted
    }

    /// Return `true` if the microphone is muted and `false` otherwise.
    pub fn is_muted(&self) -> (r: bool)
        ensures
            r == (self.muted is Muted),
    {
        self.muted.is_muted()
    }

    /// Return `true` if the microphone is an external microphone and `false`
    /// otherwise.
    pub fn external(&self) -> (r: bool)
        ensures
            r == self.external,
    {
        self.external
    }
}

/// The state of the USB.
#[derive(Debug, Copy, Clone, PartialEq, Eq, Structural)]
pub struct USBState {
    /// Is the USB data capable.
    pub data: PluggedState,
    /// Is the USB power capable.
    pub power: PluggedState,
}

impl USBState {
    /// Get the state of the data capabilities.
    pub fn data(&self) -> (r: PluggedState)
        ensures
            r == self.data,
    {
        self.data
    }

    /// Get the state of the power capabilities.
    pub fn power(&self) -> (r: PluggedState)
        ensures
            r == self.power,
    {
        self.power
    }
}

/// The current status of the back trigger effect.
///
/// This changes depending on the type of effect in action, you can read more
/// about it in [`BackTriggerEffect`].
#[derive(Debug, Copy, Clone, PartialEq, Eq, Structural)]
pub enum BackTriggerStatus {
    /// No feedback load is being applied.
    FeedbackNoLoad,
    /// Feedback load is being applied.
    FeedbackLoadApplied,
    /// Weapon is ready to be fired.
    WeaponReady,
    /// Weapon is firing.
    WeaponFiring,
    /// Weapon has already fired.
    WeaponFired,
    /// Trigger is not vibrating.
    VibrationNotVibrating,
    /// Trigger is vibrating.
    VibrationIsVibrating,
}

impl BackTriggerStatus {
    /// The joint conversion from a raw status nibble and the simultaneously
    /// read effect. The status nibble is only interpretable relative to the
    /// active effect, so this is one two-input conversion, not two
    /// independent ones:
    ///
    /// - `Off` always yields `FeedbackNoLoad`; the status nibble is ignored.
    /// - `Feedback` accepts {0, 1}.
    /// - `Weapon` accepts {0, 1, 2}.
    /// - `Vibration` accepts {0, 1}.
    ///
    /// Any status code not listed for the active effect is rejected.
    pub open spec fn spec_from(value: u8, effect: BackTriggerEffect) -> Result<
        BackTriggerStatus,
        DecodeError,
    > {
        match effect {
            BackTriggerEffect::Off => Ok(BackTriggerStatus::FeedbackNoLoad),
            BackTriggerEffect::Feedback => if value == 0 {
                Ok(BackTriggerStatus::FeedbackNoLoad)
            } else if value == 1 {
                Ok(BackTriggerStatus::FeedbackLoadApplied)
            } else {
                Err(DecodeError::InvalidEnumerationCode { field: ReportField::TriggerStatus, value })
            },
            BackTriggerEffect::Weapon => if value == 0 {
                Ok(BackTriggerStatus::WeaponReady)
            } else if value == 1 {
                Ok(BackTriggerStatus::WeaponFiring)
            } else if value == 2 {
                Ok(BackTriggerStatus::WeaponFired)
            } else {
                Err(DecodeError::InvalidEnumerationCode { field: ReportField::TriggerStatus, value })
            },
            BackTriggerEffect::Vibration => if value == 0 {
                Ok(BackTriggerStatus::VibrationNotVibrating)
            } else if value == 1 {
                Ok(BackTriggerStatus::VibrationIsVibrating)
            } else {
                Err(DecodeError::InvalidEnumerationCode { field: ReportField::TriggerStatus, value })
            },
        }
    }

    /// Convert a raw status nibble, interpreted relative to the active
    /// effect, into a status; codes outside the effect's domain are rejected.
    pub fn from_raw(value: u8, effect: BackTriggerEffect) -> (r: Result<
        BackTriggerStatus,
        DecodeError,
    >)
        ensures
            r == BackTriggerStatus::spec_from(value, effect),
    {
        match effect {
            BackTriggerEffect::Off => Ok(BackTriggerStatus::FeedbackNoLoad),
            BackTriggerEffect::Feedback => match value {
                0 => Ok(BackTriggerStatus::FeedbackNoLoad),
                1 => Ok(BackTriggerStatus::FeedbackLoadApplied),
                _ => Err(
                    DecodeError::InvalidEnumerationCode {
                        field: ReportField::TriggerStatus,
                        value,
                    },
                ),
            },
            BackTriggerEffect::Weapon => match value {
                0 => Ok(BackTriggerStatus::WeaponReady),
                1 => Ok(BackTriggerStatus::WeaponFiring),
                2 => Ok(BackTriggerStatus::WeaponFired),
                _ => Err(
                    DecodeError::InvalidEnumerationCode {
                        field: ReportField::TriggerStatus,
                        value,
                    },
                ),
            },
            BackTriggerEffect::Vibration => match value {
                0 => Ok(BackTriggerStatus::VibrationNotVibrating),
                1 => Ok(BackTriggerStatus::VibrationIsVibrating),
                _ => Err(
                    DecodeError::InvalidEnumerationCode {
                        field: ReportField::TriggerStatus,
                        value,
                    },
                ),
            },
        }
    }

    /// The raw code this status decodes from, within its effect's domain.
    pub open spec fn spec_raw(self) -> u8 {
        match self {
            BackTriggerStatus::FeedbackNoLoad => 0,
            BackTriggerStatus::FeedbackLoadApplied => 1,
            BackTriggerStatus::WeaponReady => 0,
            BackTriggerStatus::WeaponFiring => 1,
            BackTriggerStatus::WeaponFired => 2,
            BackTriggerStatus::VibrationNotVibrating => 0,
            BackTriggerStatus::VibrationIsVibrating => 1,
        }
    }

    /// Return the raw code this status decodes from, within its effect's
    /// domain.
    pub fn raw(self) -> (r: u8)
        ensures
            r == self.spec_raw(),
    {
        match self {
            BackTriggerStatus::FeedbackNoLoad => 0,
            BackTriggerStatus::FeedbackLoadApplied => 1,
            BackTriggerStatus::WeaponReady => 0,
            BackTriggerStatus::WeaponFiring => 1,
            BackTriggerStatus::WeaponFired => 2,
            BackTriggerStatus::VibrationNotVibrating => 0,
            BackTriggerStatus::VibrationIsVibrating => 1,
        }
    }
}

/// The applied effect to the back trigger.
///
/// Different effects apply different resistance curves and vibration
/// patterns.
#[derive(Debug, Copy, Clone, PartialEq, Eq, Structural)]
pub enum BackTriggerEffect {
    /// Turn the trigger effect off and return the trigger stop to the neutral
    /// position.
    ///
    /// The [`BackTriggerStatus`] will always return `FeedbackNoLoad` during
    /// it.
    Off,
    /// Trigger will resist movement beyond the start position.
    ///
    /// The [`BackTriggerStatus`] will return `FeedbackNoLoad` before the
    /// effect and `FeedbackLoadApplied` after the effect.
    Feedback,
    /// Trigger will resist movement beyond the start position until the end
    /// position.
    ///
    /// The [`BackTriggerStatus`] will return `WeaponReady` before the effect,
    /// `WeaponFiring` during the effect and `WeaponFired` after the effect.
    Weapon,
    /// Trigger will vibrate with the input amplitude and frequency beyond the
    /// start position.
    ///
    /// The [`BackTriggerStatus`] will return `VibrationNotVibrating` before
    /// the effect and `VibrationIsVibrating` during the effect.
    Vibration,
}

impl BackTriggerEffect {
    /// The conversion from a raw effect nibble; the domain is {0, 1, 2, 3}.
    /// Codes 4 through 15 are reserved and rejected.
    pub open spec fn spec_from(value: u8) -> Result<BackTriggerEffect, DecodeError> {
        if value == 0 {
            Ok(BackTriggerEffect::Off)
        } else if value == 1 {
            Ok(BackTriggerEffect::Feedback)
        } else if value == 2 {
            Ok(BackTriggerEffect::Weapon)
        } else if value == 3 {
            Ok(BackTriggerEffect::Vibration)
        } else {
            Err(DecodeError::InvalidEnumerationCode { field: ReportField::TriggerEffect, value })
        }
    }

    /// Convert a raw effect nibble into an effect, rejecting codes outside
    /// {0, 1, 2, 3}.
    pub fn from_raw(value: u8) -> (r: Result<BackTriggerEffect, DecodeError>)
        ensures
            r == BackTriggerEffect::spec_from(value),
    {
        match value {
            0 => Ok(BackTriggerEffect::Off),
            1 => Ok(BackTriggerEffect::Feedback),
            2 => Ok(BackTriggerEffect::Weapon),
            3 => Ok(BackTriggerEffect::Vibration),
            _ => Err(
                DecodeError::InvalidEnumerationCode { field: ReportField::TriggerEffect, value },
            ),
        }
    }

    /// The raw code this effect decodes from.
    pub open spec fn spec_raw(self) -> u8 {
        match self {
            BackTriggerEffect::Off => 0,
            BackTriggerEffect::Feedback => 1,
            BackTriggerEffect::Weapon => 2,
            BackTriggerEffect::Vibration => 3,
        }
    }

    /// Return the raw code this effect decodes from.
    pub fn raw(self) -> (r: u8)
        ensures
            r == self.spec_raw(),
    {
        match self {
            BackTriggerEffect::Off => 0,
            BackTriggerEffect::Feedback => 1,
            BackTriggerEffect::Weapon => 2,
            BackTriggerEffect::Vibration => 3,
        }
    }
}

/// The stop location of the back trigger.
#[derive(Debug, Copy, Clone, PartialEq, Eq, Structural)]
pub struct BackTriggerStop(pub u8);

/// A state of the back trigger.
///
/// Different from the front trigger, a back trigger is composed of a more
/// complex state. As such, more information is needed to fully represent it.
#[derive(Debug, Copy, Clone, PartialEq, Eq, Structural)]
pub struct BackTriggerState {
    /// Binary state of the back trigger.
    pub state: ButtonState,
    /// Axis of the back trigger.
    pub axis: Axis,
    /// Effect applied to the back trigger.
    pub effect: BackTriggerEffect,
    /// Status of the back trigger.
    ///
    /// The status relates to the effect.
    pub status: BackTriggerStatus,
    /// Stop location of the back trigger.
    pub stop: BackTriggerStop,
}

impl BackTriggerState {
    /// Get the button state of the back trigger.
    pub fn button(&self) -> (r: ButtonState)
        ensures
            r == self.state,
    {
        self.state
    }

    /// Get the current axis of the back trigger.
    ///
    /// An axis is a value ranging from `0` to `255`, representing how far
    /// pressed a back trigger is. `0` indicates that the trigger is 0%
    /// pressed, while `255` indicates that the trigger is 100% pressed.
    pub fn axis(&self) -> (r: u8)
        ensures
            r == self.axis.0,
    {
        self.axis.value()
    }

    /// Get the current effect of the back trigger.
    ///
    /// The DualSense controller has support for different pre-defined
    /// effects. For a list with the officially supported effects you can see
    /// [`BackTriggerEffect`].
    pub fn effect(&self) -> (r: BackTriggerEffect)
        ensures
            r == self.effect,
    {
        self.effect
    }

    /// Get the current status of the back trigger.
    ///
    /// The back trigger status indicates the state of the back trigger in a
    /// manner relevant to the effect. While the axis can show absolute
    /// positioning, the status will show what is the effect being applied,
    /// and if it is being currently applied or not.
    pub fn status(&self) -> (r: BackTriggerStatus)
        ensures
            r == self.status,
    {
        self.status
    }
}

/// Direction of the directional pad.
///
/// The directional pad is defined as the four arrow buttons in the left of
/// the face of the controller. At most two neighboring buttons can be pressed
/// at once. Because of this, their state is usually represented as directions
/// in a compass, clockwise from north, with a ninth neutral value for no
/// arrow pressed.
#[derive(Debug, Copy, Clone, PartialEq, Eq, Structural)]
pub enum DPadDirection {
    /// Up arrow pressed.
    North,
    /// Up and right arrow pressed.
    NorthEast,
    /// Right arrow pressed.
    East,
    /// Right and down arrow pressed.
    SouthEast,
    /// Down arrow pressed.
    South,
    /// Down and left arrow pressed.
    SouthWest,
    /// Left arrow pressed.
    West,
    /// Left and up arrow pressed.
    NorthWest,
    /// No arrow pressed.
    Neutral,
}

impl DPadDirection {
    /// The conversion from a raw directional-pad nibble; the domain is
    /// {0, ..., 8}: the eight compass directions clockwise from north, then
    /// 8 for the centered pad.
    pub open spec fn spec_from(value: u8) -> Result<DPadDirection, DecodeError> {
        if value == 0 {
            Ok(DPadDirection::North)
        } else if value == 1 {
            Ok(DPadDirection::NorthEast)
        } else if value == 2 {
            Ok(DPadDirection::East)
        } else if value == 3 {
            Ok(DPadDirection::SouthEast)
        } else if value == 4 {
            Ok(DPadDirection::South)
        } else if value == 5 {
            Ok(DPadDirection::SouthWest)
        } else if value == 6 {
            Ok(DPadDirection::West)
        } else if value == 7 {
            Ok(DPadDirection::NorthWest)
        } else if value == 8 {
            Ok(DPadDirection::Neutral)
        } else {
            Err(DecodeError::InvalidEnumerationCode { field: ReportField::DPad, value })
        }
    }

    /// Convert a raw directional-pad nibble into a direction, rejecting codes
    /// outside {0, ..., 8}.
    pub fn from_raw(value: u8) -> (r: Result<DPadDirection, DecodeError>)
        ensures
            r == DPadDirection::spec_from(value),
    {
        match value {
            0 => Ok(DPadDirection::North),
            1 => Ok(DPadDirection::NorthEast),
            2 => Ok(DPadDirection::East),
            3 => Ok(DPadDirection::SouthEast),
            4 => Ok(DPadDirection::South),
            5 => Ok(DPadDirection::SouthWest),
            6 => Ok(DPadDirection::West),
            7 => Ok(DPadDirection::NorthWest),
            8 => Ok(DPadDirection::Neutral),
            _ => Err(DecodeError::InvalidEnumerationCode { field: ReportField::DPad, value }),
        }
    }

    /// The raw code this direction decodes from.
    pub open spec fn spec_raw(self) -> u8 {
        match self {
            DPadDirection::North => 0,
            DPadDirection::NorthEast => 1,
            DPadDirection::East => 2,
            DPadDirection::SouthEast => 3,
            DPadDirection::South => 4,
            DPadDirection::SouthWest => 5,
            DPadDirection::West => 6,
            DPadDirection::NorthWest => 7,
            DPadDirection::Neutral => 8,
        }
    }

    /// Return the raw code this direction decodes from.
    pub fn raw(self) -> (r: u8)
        ensures
            r == self.spec_raw(),
    {
        match self {
            DPadDirection::North => 0,
            DPadDirection::NorthEast => 1,
            DPadDirection::East => 2,
            DPadDirection::SouthEast => 3,
            DPadDirection::South => 4,
            DPadDirection::SouthWest => 5,
            DPadDirection::West => 6,
            DPadDirection::NorthWest => 7,
            DPadDirection::Neutral => 8,
        }
    }
}

/// Every raw code in the button domain {0, 1} survives the round trip through
/// the enumeration: decoding it and reading the raw code back is the
/// identity.
pub proof fn lemma_button_state_round_trip(value: u8)
    requires
        value < 2,
    ensures
        ButtonState::spec_from(value) matches Ok(b) && b.spec_raw() == value,
{
}

/// Every raw code in the plugged domain {0, 1} survives the round trip
/// through the enumeration.
pub proof fn lemma_plugged_state_round_trip(value: u8)
    requires
        value < 2,
    ensures
        PluggedState::spec_from(value) matches Ok(p) && p.spec_raw() == value,
{
}

/// Every raw code in the muted domain {0, 1} survives the round trip through
/// the enumeration.
pub proof fn lemma_muted_state_round_trip(value: u8)
    requires
        value < 2,
    ensures
        MutedState::spec_from(value) matches Ok(m) && m.spec_raw() == value,
{
}

/// Every raw code in the power domain {0x00, 0x01, 0x02, 0x0A, 0x0B, 0x0F}
/// survives the round trip through the enumeration.
pub proof fn lemma_power_state_round_trip(value: u8)
    requires
        value == 0x00 || value == 0x01 || value == 0x02 || value == 0x0A || value == 0x0B || value
            == 0x0F,
    ensures
        PowerState::spec_from(value) matches Ok(p) && p.spec_raw() == value,
{
}

/// Every raw code in the directional-pad domain {0, ..., 8} survives the
/// round trip through the enumeration.
pub proof fn lemma_dpad_round_trip(value: u8)
    requires
        value <= 8,
    ensures
        DPadDirection::spec_from(value) matches Ok(d) && d.spec_raw() == value,
{
}

/// Directional-pad codes of 9 and above are outside the compass domain and
/// fail the conversion.
pub proof fn lemma_dpad_rejects_out_of_range(value: u8)
    requires
        value >= 9,
    ensures
        DPadDirection::spec_from(value) == Err::<DPadDirection, DecodeError>(
            (DecodeError::InvalidEnumerationCode { field: ReportField::DPad, value }),
        ),
{
}

/// Every raw code in the effect domain {0, 1, 2, 3} survives the round trip
/// through the enumeration.
pub proof fn lemma_back_trigger_effect_round_trip(value: u8)
    requires
        value < 4,
    ensures
        BackTriggerEffect::spec_from(value) matches Ok(e) && e.spec_raw() == value,
{
}

/// For every effect other than `Off`, every raw status code in that effect's
/// domain survives the round trip through the joint conversion.
pub proof fn lemma_back_trigger_status_round_trip(value: u8, effect: BackTriggerEffect)
    requires
        effect != BackTriggerEffect::Off,
        effect == BackTriggerEffect::Feedback ==> value < 2,
        effect == BackTriggerEffect::Weapon ==> value < 3,
        effect == BackTriggerEffect::Vibration ==> value < 2,
    ensures
        BackTriggerStatus::spec_from(value, effect) matches Ok(s) && s.spec_raw() == value,
{
}

/// With the `Off` effect the status nibble is ignored: every raw code — in or
/// out of the other effects' domains — decodes to `FeedbackNoLoad`.
pub proof fn lemma_off_effect_ignores_status(value: u8)
    ensures
        BackTriggerStatus::spec_from(value, BackTriggerEffect::Off) == Ok::<
            BackTriggerStatus,
            DecodeError,
        >(BackTriggerStatus::FeedbackNoLoad),
{
}

} // verus!
