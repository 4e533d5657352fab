//! The DualSense controller module.
//!
//! The entry point here is [`DualSenseState::decode`]: a pure, total function
//! from one 64-byte wired-mode input report to an immutable snapshot of the
//! controller. Its contract is [`spec_decode`], a byte-for-byte description of
//! the reverse-engineered report layout: which buffers are rejected and with
//! which error, and which bits of which byte feed every field of the state.

use crate::bitfield::{
    assemble_i16_le, assemble_u12, assemble_u16_le, extract, i8_from_bits,
    lemma_extract_single_bit, spec_extract, spec_i16_le, spec_i8_from_bits, spec_u12, spec_u16_le,
};
use crate::errors::DecodeError;
use crate::mappings::group::{
    ActionButtonGroup, BackTriggerGroup, FrontTriggerGroup, MenuGroup, PluggedGroup, PowerGroup,
    StickGroup,
};
use crate::mappings::{
    AccelerationState, AngularVelocityState, Axis, BackTriggerEffect, BackTriggerState,
    BackTriggerStatus, BackTriggerStop, ButtonState, DPadDirection, FingerData, MicrophoneState,
    MutedState, PluggedState, PowerState, StickCoordinates, StickState, TemperatureState,
    TouchPadState, USBState,
};
use vstd::prelude::*;

verus! {

/// The error type for operations with a DualSense controller.
#[derive(Debug, Copy, Clone, PartialEq, Eq, Structural)]
pub enum Error {
    /// A bind error.
    ///
    /// This error can happen when trying to bind with a controller.
    Bind,
    /// A mode error.
    ///
    /// This error can happen when trying to change the update mode (blocking
    /// or non-blocking) of the controller.
    Mode,
    /// An update error.
    ///
    /// This error can happen when trying to update the controller state.
    Update,
    /// An exit error.
    ///
    /// This error can happen when trying to finish using the controller
    /// (usually when dropping it).
    Exit,
}

/// The mode to use when updating the controller state.
#[derive(Debug, Copy, Clone, PartialEq, Eq, Structural)]
pub enum Mode {
    /// Blocking mode.
    ///
    /// In this mode, every read of a report blocks until either data is read
    /// or an error occurs.
    Blocking,
    /// Non-blocking mode.
    ///
    /// In this mode, every read of a report returns immediately, whether data
    /// was read or not.
    NonBlocking,
}

/// L3 button bit within byte 9.
pub const L3_MASK: u8 = 0x40;

/// R3 button bit within byte 9.
pub const R3_MASK: u8 = 0x80;

/// Directional-pad nibble within byte 8.
pub const DPAD_MASK: u8 = 0x0F;

/// Square button bit within byte 8.
pub const SQUARE_MASK: u8 = 0x10;

/// Cross button bit within byte 8.
pub const CROSS_MASK: u8 = 0x20;

/// Circle button bit within byte 8.
pub const CIRCLE_MASK: u8 = 0x40;

/// Triangle button bit within byte 8.
pub const TRIANGLE_MASK: u8 = 0x80;

/// Create button bit within byte 9.
pub const CREATE_MASK: u8 = 0x10;

/// Options button bit within byte 9.
pub const OPTIONS_MASK: u8 = 0x20;

/// Home (PS) button bit within byte 10.
pub const HOME_MASK: u8 = 0x01;

/// Mute button bit within byte 10.
pub const MUTE_MASK: u8 = 0x04;

/// Touchpad click bit within byte 10.
pub const TOUCHPAD_MASK: u8 = 0x02;

/// Finger touch counter within the first byte of a touch record.
pub const FINGER_INDEX_MASK: u8 = 0x7F;

/// Finger touching bit (active low) within the first byte of a touch record.
pub const FINGER_TOUCHING_MASK: u8 = 0x80;

/// High nibble of a touch X coordinate, in the record's third byte.
pub const FINGER_X_HIGH_MASK: u8 = 0x0F;

/// Low nibble of a touch Y coordinate, in the record's third byte.
pub const FINGER_Y_LOW_MASK: u8 = 0xF0;

/// L1 button bit within byte 9.
pub const L1_MASK: u8 = 0x01;

/// R1 button bit within byte 9.
pub const R1_MASK: u8 = 0x02;

/// L2 button bit within byte 9.
pub const L2_MASK: u8 = 0x04;

/// R2 button bit within byte 9.
pub const R2_MASK: u8 = 0x08;

/// L2 effect nibble within byte 48.
pub const L2_EFFECT_MASK: u8 = 0xF0;

/// R2 effect nibble within byte 48.
pub const R2_EFFECT_MASK: u8 = 0x0F;

/// L2 status nibble within byte 43.
pub const L2_STATUS_MASK: u8 = 0xF0;

/// R2 status nibble within byte 42.
pub const R2_STATUS_MASK: u8 = 0xF0;

/// L2 stop nibble within byte 43.
pub const L2_STOP_MASK: u8 = 0xF0;

/// R2 stop nibble within byte 42.
pub const R2_STOP_MASK: u8 = 0xF0;

/// Headphone plugged bit within byte 54.
pub const HEADPHONE_MASK: u8 = 0x01;

/// Microphone plugged bit within byte 54.
pub const MICROPHONE_MASK: u8 = 0x02;

/// Microphone muted bit within byte 54.
pub const MIC_MUTED_MASK: u8 = 0x04;

/// USB data plugged bit within byte 54.
pub const USB_DATA_MASK: u8 = 0x08;

/// USB power plugged bit within byte 54.
pub const USB_POWER_MASK: u8 = 0x10;

/// External microphone bit within byte 55.
pub const EXTERNAL_MIC_MASK: u8 = 0x01;

/// Haptic low-pass-filter bit within byte 55.
pub const HAPTIC_MASK: u8 = 0x02;

/// Battery charge-state nibble within byte 53.
pub const POWER_STATE_MASK: u8 = 0xF0;

/// Battery percent nibble within byte 53.
pub const POWER_PERCENT_MASK: u8 = 0x0F;

/// The button state carried by a one-bit field. One-bit fields cannot hold a
/// code outside the button domain {0, 1}, so this conversion is total.
pub open spec fn spec_button(byte: u8, mask: u8) -> ButtonState {
    ButtonState::spec_from(spec_extract(byte, mask))->Ok_0
}

/// The plugged state carried by a one-bit field.
pub open spec fn spec_plugged_bit(byte: u8, mask: u8) -> PluggedState {
    PluggedState::spec_from(spec_extract(byte, mask))->Ok_0
}

/// The muted state carried by a one-bit field.
pub open spec fn spec_muted_bit(byte: u8, mask: u8) -> MutedState {
    MutedState::spec_from(spec_extract(byte, mask))->Ok_0
}

/// The analog-stick group of a report: stick axes in bytes 1 through 4, L3
/// and R3 bits in byte 9.
pub open spec fn spec_sticks(b: Seq<u8>) -> StickGroup {
    StickGroup {
        left: StickState {
            state: spec_button(b[9], L3_MASK),
            position: StickCoordinates { x: b[1], y: b[2] },
        },
        right: StickState {
            state: spec_button(b[9], R3_MASK),
            position: StickCoordinates { x: b[3], y: b[4] },
        },
    }
}

/// The directional pad of a report: the low nibble of byte 8, which fails on
/// codes outside the compass domain {0, ..., 8}.
pub open spec fn spec_dpad(b: Seq<u8>) -> Result<DPadDirection, DecodeError> {
    DPadDirection::spec_from(spec_extract(b[8], DPAD_MASK))
}

/// The action-button group of a report: the high nibble of byte 8.
pub open spec fn spec_action_buttons(b: Seq<u8>) -> ActionButtonGroup {
    ActionButtonGroup {
        square: spec_button(b[8], SQUARE_MASK),
        cross: spec_button(b[8], CROSS_MASK),
        circle: spec_button(b[8], CIRCLE_MASK),
        triangle: spec_button(b[8], TRIANGLE_MASK),
    }
}

/// The menu-button group of a report: bits scattered over bytes 9 and 10.
pub open spec fn spec_menus(b: Seq<u8>) -> MenuGroup {
    MenuGroup {
        create: spec_button(b[9], CREATE_MASK),
        options: spec_button(b[9], OPTIONS_MASK),
        home: spec_button(b[10], HOME_MASK),
        mute: spec_button(b[10], MUTE_MASK),
    }
}

/// One finger-touch record, four bytes starting at `offset`: a 7-bit touch
/// counter and an active-low touching bit, then a 12-bit X coordinate and a
/// 12-bit Y coordinate packed little-endian around a shared middle byte.
pub open spec fn spec_finger(b: Seq<u8>, offset: int) -> FingerData {
    FingerData {
        index: spec_extract(b[offset], FINGER_INDEX_MASK),
        is_touching: spec_extract(b[offset], FINGER_TOUCHING_MASK) == 0,
        x: spec_u16_le(b[offset + 1], spec_extract(b[offset + 2], FINGER_X_HIGH_MASK)),
        y: spec_u12(spec_extract(b[offset + 2], FINGER_Y_LOW_MASK), b[offset + 3]),
    }
}

/// The touchpad of a report: the click bit in byte 10, two finger-touch
/// records at bytes 33 and 37, and the timestamp byte 41.
pub open spec fn spec_touchpad(b: Seq<u8>) -> TouchPadState {
    TouchPadState {
        state: spec_button(b[10], TOUCHPAD_MASK),
        finger: [spec_finger(b, 33), spec_finger(b, 37)],
        timestamp: b[41],
    }
}

/// The front-trigger group of a report: the L1 and R1 bits of byte 9.
pub open spec fn spec_front_triggers(b: Seq<u8>) -> FrontTriggerGroup {
    FrontTriggerGroup { l1: spec_button(b[9], L1_MASK), r1: spec_button(b[9], R1_MASK) }
}

/// The back-trigger group of a report: digital bits in byte 9, axes in bytes
/// 5 and 6, effect nibbles in byte 48, and status/stop nibbles in bytes 43
/// (L2) and 42 (R2). Fails on an effect code outside {0, ..., 3} or a status
/// code outside the active effect's domain, checking L2's effect, L2's
/// status, R2's effect and R2's status in that order.
pub open spec fn spec_back_triggers(b: Seq<u8>) -> Result<BackTriggerGroup, DecodeError> {
    match BackTriggerEffect::spec_from(spec_extract(b[48], L2_EFFECT_MASK)) {
        Err(e) => Err(e),
        Ok(l2_effect) => match BackTriggerStatus::spec_from(
            spec_extract(b[43], L2_STATUS_MASK),
            l2_effect,
        ) {
            Err(e) => Err(e),
            Ok(l2_status) => match BackTriggerEffect::spec_from(
                spec_extract(b[48], R2_EFFECT_MASK),
            ) {
                Err(e) => Err(e),
                Ok(r2_effect) => match BackTriggerStatus::spec_from(
                    spec_extract(b[42], R2_STATUS_MASK),
                    r2_effect,
                ) {
                    Err(e) => Err(e),
                    Ok(r2_status) => Ok(
                        BackTriggerGroup {
                            l2: BackTriggerState {
                                state: spec_button(b[9], L2_MASK),
                                axis: Axis(b[5]),
                                effect: l2_effect,
                                status: l2_status,
                                stop: BackTriggerStop(spec_extract(b[43], L2_STOP_MASK)),
                            },
                            r2: BackTriggerState {
                                state: spec_button(b[9], R2_MASK),
                                axis: Axis(b[6]),
                                effect: r2_effect,
                                status: r2_status,
                                stop: BackTriggerStop(spec_extract(b[42], R2_STOP_MASK)),
                            },
                        },
                    ),
                },
            },
        },
    }
}

/// The angular velocity of a report: three signed little-endian pairs within
/// bytes 16 through 21.
pub open spec fn spec_angular_velocity(b: Seq<u8>) -> AngularVelocityState {
    AngularVelocityState {
        x: spec_i16_le(b[16], b[17]),
        y: spec_i16_le(b[20], b[21]),
        z: spec_i16_le(b[18], b[19]),
    }
}

/// The acceleration of a report: three signed little-endian pairs in bytes 22
/// through 27.
pub open spec fn spec_acceleration(b: Seq<u8>) -> AccelerationState {
    AccelerationState {
        x: spec_i16_le(b[22], b[23]),
        y: spec_i16_le(b[24], b[25]),
        z: spec_i16_le(b[26], b[27]),
    }
}

/// The plugged-peripheral group of a report: bits of bytes 54 and 55.
pub open spec fn spec_plugged(b: Seq<u8>) -> PluggedGroup {
    PluggedGroup {
        headphone: spec_plugged_bit(b[54], HEADPHONE_MASK),
        microphone: MicrophoneState {
            state: spec_plugged_bit(b[54], MICROPHONE_MASK),
            muted: spec_muted_bit(b[54], MIC_MUTED_MASK),
            external: spec_extract(b[55], EXTERNAL_MIC_MASK) != 0,
        },
        usb: USBState {
            data: spec_plugged_bit(b[54], USB_DATA_MASK),
            power: spec_plugged_bit(b[54], USB_POWER_MASK),
        },
        haptic_low_pass_filter: spec_plugged_bit(b[55], HAPTIC_MASK),
    }
}

/// The temperature of a report: byte 32 as a signed Celsius reading.
pub open spec fn spec_temperature(b: Seq<u8>) -> TemperatureState {
    TemperatureState::Celsius(spec_i8_from_bits(b[32]))
}

/// The power group of a report: byte 53, charge state in the high nibble and
/// percent in the low nibble. Fails on a charge-state code outside the
/// documented domain.
pub open spec fn spec_power(b: Seq<u8>) -> Result<PowerGroup, DecodeError> {
    match PowerState::spec_from(spec_extract(b[53], POWER_STATE_MASK)) {
        Ok(state) => Ok(
            PowerGroup { state, percent: spec_extract(b[53], POWER_PERCENT_MASK) },
        ),
        Err(e) => Err(e),
    }
}

/// What decoding a buffer yields: `WrongSize` unless it holds exactly 64
/// bytes, `UnsupportedReportType` unless its header byte is 0x00 or 0x01,
/// then the first enumeration failure among the fallible fields — the
/// directional pad, the back triggers, the power state, in that order — and
/// otherwise the fully populated state.
pub open spec fn spec_decode(b: Seq<u8>) -> Result<DualSenseState, DecodeError> {
    if b.len() != 64 {
        Err(DecodeError::WrongSize)
    } else if b[0] != 0 && b[0] != 1 {
        Err(DecodeError::UnsupportedReportType)
    } else if spec_dpad(b) is Err {
        Err(spec_dpad(b)->Err_0)
    } else if spec_back_triggers(b) is Err {
        Err(spec_back_triggers(b)->Err_0)
    } else if spec_power(b) is Err {
        Err(spec_power(b)->Err_0)
    } else {
        Ok(
            DualSenseState {
                sticks: spec_sticks(b),
                directional_pad: spec_dpad(b)->Ok_0,
                action_buttons: spec_action_buttons(b),
                menus: spec_menus(b),
                touchpad: spec_touchpad(b),
                front_triggers: spec_front_triggers(b),
                back_triggers: spec_back_triggers(b)->Ok_0,
                angular_velocity: spec_angular_velocity(b),
                acceleration: spec_acceleration(b),
                plugged: spec_plugged(b),
                temperature: spec_temperature(b),
                power: spec_power(b)->Ok_0,
            },
        )
    }
}

/// The state of a DualSense controller.
///
/// This state has all the common buttons and readings from the controller.
/// It is an immutable value: a new decode produces a new, independent value,
/// and consumers hold it by copy.
#[derive(Debug, Copy, Clone, PartialEq)]
pub struct DualSenseState {
    /// The analog sticks.
    pub sticks: StickGroup,
    /// The directional pad.
    pub directional_pad: DPadDirection,
    /// The action buttons.
    pub action_buttons: ActionButtonGroup,
    /// The menu buttons.
    pub menus: MenuGroup,
    /// The touchpad.
    pub touchpad: TouchPadState,
    /// The front triggers.
    pub front_triggers: FrontTriggerGroup,
    /// The back triggers.
    pub back_triggers: BackTriggerGroup,
    /// The angular velocity.
    pub angular_velocity: AngularVelocityState,
    /// The acceleration.
    pub acceleration: AccelerationState,
    /// The plugged peripherals.
    pub plugged: PluggedGroup,
    /// The temperature.
    pub temperature: TemperatureState,
    /// The battery power.
    pub power: PowerGroup,
}

/// Decode a one-bit button field.
fn decode_button(byte: u8, mask: u8) -> (r: Result<ButtonState, DecodeError>)
    ensures
        r == ButtonState::spec_from(spec_extract(byte, mask)),
{
    ButtonState::from_raw(extract(byte, mask))
}

/// Decode a one-bit plugged field.
fn decode_plugged(byte: u8, mask: u8) -> (r: Result<PluggedState, DecodeError>)
    ensures
        r == PluggedState::spec_from(spec_extract(byte, mask)),
{
    PluggedState::from_raw(extract(byte, mask))
}

/// Decode a one-bit muted field.
fn decode_muted(byte: u8, mask: u8) -> (r: Result<MutedState, DecodeError>)
    ensures
        r == MutedState::spec_from(spec_extract(byte, mask)),
{
    MutedState::from_raw(extract(byte, mask))
}

/// Decode the analog-stick group. The button fields are one bit wide, so no
/// enumeration failure is possible.
fn decode_sticks(buf: &[u8]) -> (r: Result<StickGroup, DecodeError>)
    requires
        buf@.len() == 64,
    ensures
        r == Ok::<StickGroup, DecodeError>(spec_sticks(buf@)),
{
    let b9: u8 = buf[9];
    proof {
        lemma_extract_single_bit(b9, L3_MASK);
        lemma_extract_single_bit(b9, R3_MASK);
    }
    let left_state = match decode_button(b9, L3_MASK) {
        Ok(v) => v,
        Err(e) => return Err(e),
    };
    let right_state = match decode_button(b9, R3_MASK) {
        Ok(v) => v,
        Err(e) => return Err(e),
    };
    Ok(
        StickGroup {
            left: StickState {
                state: left_state,
                position: StickCoordinates { x: buf[1], y: buf[2] },
            },
            right: StickState {
                state: right_state,
                position: StickCoordinates { x: buf[3], y: buf[4] },
            },
        },
    )
}

/// Decode the directional pad.
fn decode_dpad(buf: &[u8]) -> (r: Result<DPadDirection, DecodeError>)
    requires
        buf@.len() == 64,
    ensures
        r == spec_dpad(buf@),
{
    DPadDirection::from_raw(extract(buf[8], DPAD_MASK))
}

/// Decode the action-button group. The button fields are one bit wide, so no
/// enumeration failure is possible.
fn decode_action_buttons(buf: &[u8]) -> (r: Result<ActionButtonGroup, DecodeError>)
    requires
        buf@.len() == 64,
    ensures
        r == Ok::<ActionButtonGroup, DecodeError>(spec_action_buttons(buf@)),
{
    let b8: u8 = buf[8];
    proof {
        lemma_extract_single_bit(b8, SQUARE_MASK);
        lemma_extract_single_bit(b8, CROSS_MASK);
        lemma_extract_single_bit(b8, CIRCLE_MASK);
        lemma_extract_single_bit(b8, TRIANGLE_MASK);
    }
    let square = match decode_button(b8, SQUARE_MASK) {
        Ok(v) => v,
        Err(e) => return Err(e),
    };
    let cross = match decode_button(b8, CROSS_MASK) {
        Ok(v) => v,
        Err(e) => return Err(e),
    };
    let circle = match decode_button(b8, CIRCLE_MASK) {
        Ok(v) => v,
        Err(e) => return Err(e),
    };
    let triangle = match decode_button(b8, TRIANGLE_MASK) {
        Ok(v) => v,
        Err(e) => return Err(e),
    };
    Ok(ActionButtonGroup { square, cross, circle, triangle })
}

/// Decode the menu-button group. The button fields are one bit wide, so no
/// enumeration failure is possible.
fn decode_menus(buf: &[u8]) -> (r: Result<MenuGroup, DecodeError>)
    requires
        buf@.len() == 64,
    ensures
        r == Ok::<MenuGroup, DecodeError>(spec_menus(buf@)),
{
    let b9: u8 = buf[9];
    let b10: u8 = buf[10];
    proof {
        lemma_extract_single_bit(b9, CREATE_MASK);
        lemma_extract_single_bit(b9, OPTIONS_MASK);
        lemma_extract_single_bit(b10, HOME_MASK);
        lemma_extract_single_bit(b10, MUTE_MASK);
    }
    let create = match decode_button(b9, CREATE_MASK) {
        Ok(v) => v,
        Err(e) => return Err(e),
    };
    let options = match decode_button(b9, OPTIONS_MASK) {
        Ok(v) => v,
        Err(e) => return Err(e),
    };
    let home = match decode_button(b10, HOME_MASK) {
        Ok(v) => v,
        Err(e) => return Err(e),
    };
    let mute = match decode_button(b10, MUTE_MASK) {
        Ok(v) => v,
        Err(e) => return Err(e),
    };
    Ok(MenuGroup { create, options, home, mute })
}

/// Decode one finger-touch record starting at `offset`.
fn decode_finger(buf: &[u8], offset: usize) -> (r: FingerData)
    requires
        buf@.len() == 64,
        offset + 3 < 64,
    ensures
        r == spec_finger(buf@, offset as int),
{
    FingerData {
        index: extract(buf[offset], FINGER_INDEX_MASK),
        is_touching: extract(buf[offset], FINGER_TOUCHING_MASK) == 0,
        x: assemble_u16_le(buf[offset + 1], extract(buf[offset + 2], FINGER_X_HIGH_MASK)),
        y: assemble_u12(extract(buf[offset + 2], FINGER_Y_LOW_MASK), buf[offset + 3]),
    }
}

/// Decode the touchpad. The click field is one bit wide, so no enumeration
/// failure is possible.
fn decode_touchpad(buf: &[u8]) -> (r: Result<TouchPadState, DecodeError>)
    requires
        buf@.len() == 64,
    ensures
        r == Ok::<TouchPadState, DecodeError>(spec_touchpad(buf@)),
{
    let b10: u8 = buf[10];
    proof {
        lemma_extract_single_bit(b10, TOUCHPAD_MASK);
    }
    let state = match decode_button(b10, TOUCHPAD_MASK) {
        Ok(v) => v,
        Err(e) => return Err(e),
    };
    let one = decode_finger(buf, 33);
    let two = decode_finger(buf, 37);
    Ok(TouchPadState { state, finger: [one, two], timestamp: buf[41] })
}

/// Decode the front-trigger group. The button fields are one bit wide, so no
/// enumeration failure is possible.
fn decode_front_triggers(buf: &[u8]) -> (r: Result<FrontTriggerGroup, DecodeError>)
    requires
        buf@.len() == 64,
    ensures
        r == Ok::<FrontTriggerGroup, DecodeError>(spec_front_triggers(buf@)),
{
    let b9: u8 = buf[9];
    proof {
        lemma_extract_single_bit(b9, L1_MASK);
        lemma_extract_single_bit(b9, R1_MASK);
    }
    let l1 = match decode_button(b9, L1_MASK) {
        Ok(v) => v,
        Err(e) => return Err(e),
    };
    let r1 = match decode_button(b9, R1_MASK) {
        Ok(v) => v,
        Err(e) => return Err(e),
    };
    Ok(FrontTriggerGroup { l1, r1 })
}

/// Decode the back-trigger group, resolving each trigger's effect before its
/// status: the status nibble has no meaning of its own.
fn decode_back_triggers(buf: &[u8]) -> (r: Result<BackTriggerGroup, DecodeError>)
    requires
        buf@.len() == 64,
    ensures
        r == spec_back_triggers(buf@),
{
    let b9: u8 = buf[9];
    let b42: u8 = buf[42];
    let b43: u8 = buf[43];
    let b48: u8 = buf[48];
    proof {
        lemma_extract_single_bit(b9, L2_MASK);
        lemma_extract_single_bit(b9, R2_MASK);
    }
    let l2_effect = match BackTriggerEffect::from_raw(extract(b48, L2_EFFECT_MASK)) {
        Ok(v) => v,
        Err(e) => return Err(e),
    };
    let l2_status = match BackTriggerStatus::from_raw(extract(b43, L2_STATUS_MASK), l2_effect) {
        Ok(v) => v,
        Err(e) => return Err(e),
    };
    let r2_effect = match BackTriggerEffect::from_raw(extract(b48, R2_EFFECT_MASK)) {
        Ok(v) => v,
        Err(e) => return Err(e),
    };
    let r2_status = match BackTriggerStatus::from_raw(extract(b42, R2_STATUS_MASK), r2_effect) {
        Ok(v) => v,
        Err(e) => return Err(e),
    };
    let l2_state = match decode_button(b9, L2_MASK) {
        Ok(v) => v,
        Err(e) => return Err(e),
    };
    let r2_state = match decode_button(b9, R2_MASK) {
        Ok(v) => v,
        Err(e) => return Err(e),
    };
    Ok(
        BackTriggerGroup {
            l2: BackTriggerState {
                state: l2_state,
                axis: Axis::new(buf[5]),
                effect: l2_effect,
                status: l2_status,
                stop: BackTriggerStop(extract(b43, L2_STOP_MASK)),
            },
            r2: BackTriggerState {
                state: r2_state,
                axis: Axis::new(buf[6]),
                effect: r2_effect,
                status: r2_status,
                stop: BackTriggerStop(extract(b42, R2_STOP_MASK)),
            },
        },
    )
}

/// Decode the angular velocity.
fn decode_angular_velocity(buf: &[u8]) -> (r: AngularVelocityState)
    requires
        buf@.len() == 64,
    ensures
        r == spec_angular_velocity(buf@),
{
    AngularVelocityState {
        x: assemble_i16_le(buf[16], buf[17]),
        y: assemble_i16_le(buf[20], buf[21]),
        z: assemble_i16_le(buf[18], buf[19]),
    }
}

/// Decode the acceleration.
fn decode_acceleration(buf: &[u8]) -> (r: AccelerationState)
    requires
        buf@.len() == 64,
    ensures
        r == spec_acceleration(buf@),
{
    AccelerationState {
        x: assemble_i16_le(buf[22], buf[23]),
        y: assemble_i16_le(buf[24], buf[25]),
        z: assemble_i16_le(buf[26], buf[27]),
    }
}

/// Decode the plugged-peripheral group. Every field is one bit wide, so no
/// enumeration failure is possible.
fn decode_plugged_group(buf: &[u8]) -> (r: Result<PluggedGroup, DecodeError>)
    requires
        buf@.len() == 64,
    ensures
        r == Ok::<PluggedGroup, DecodeError>(spec_plugged(buf@)),
{
    let b54: u8 = buf[54];
    let b55: u8 = buf[55];
    proof {
        lemma_extract_single_bit(b54, HEADPHONE_MASK);
        lemma_extract_single_bit(b54, MICROPHONE_MASK);
        lemma_extract_single_bit(b54, MIC_MUTED_MASK);
        lemma_extract_single_bit(b54, USB_DATA_MASK);
        lemma_extract_single_bit(b54, USB_POWER_MASK);
        lemma_extract_single_bit(b55, HAPTIC_MASK);
    }
    let headphone = match decode_plugged(b54, HEADPHONE_MASK) {
        Ok(v) => v,
        Err(e) => return Err(e),
    };
    let mic_state = match decode_plugged(b54, MICROPHONE_MASK) {
        Ok(v) => v,
        Err(e) => return Err(e),
    };
    let mic_muted = match decode_muted(b54, MIC_MUTED_MASK) {
        Ok(v) => v,
        Err(e) => return Err(e),
    };
    let external = extract(b55, EXTERNAL_MIC_MASK) != 0;
    let usb_data = match decode_plugged(b54, USB_DATA_MASK) {
        Ok(v) => v,
        Err(e) => return Err(e),
    };
    let usb_power = match decode_plugged(b54, USB_POWER_MASK) {
        Ok(v) => v,
        Err(e) => return Err(e),
    };
    let haptic = match decode_plugged(b55, HAPTIC_MASK) {
        Ok(v) => v,
        Err(e) => return Err(e),
    };
    Ok(
        PluggedGroup {
            headphone,
            microphone: MicrophoneState { state: mic_state, muted: mic_muted, external },
            usb: USBState { data: usb_data, power: usb_power },
            haptic_low_pass_filter: haptic,
        },
    )
}

/// Decode the power group.
fn decode_power(buf: &[u8]) -> (r: Result<PowerGroup, DecodeError>)
    requires
        buf@.len() == 64,
    ensures
        r == spec_power(buf@),
{
    let b53: u8 = buf[53];
    let state = match PowerState::from_raw(extract(b53, POWER_STATE_MASK)) {
        Ok(v) => v,
        Err(e) => return Err(e),
    };
    Ok(PowerGroup { state, percent: extract(b53, POWER_PERCENT_MASK) })
}

impl DualSenseState {
    /// Decode one wired-mode input report into a controller state.
    ///
    /// The decode is a single deterministic pass with no side effects: it
    /// rejects buffers that do not hold exactly 64 bytes with
    /// [`DecodeError::WrongSize`] and header bytes other than 0x00 (the
    /// all-zero placeholder report) or 0x01 (the wired input report) with
    /// [`DecodeError::UnsupportedReportType`], then populates every sub-state
    /// from the fixed offsets of the report layout. A raw code outside a
    /// field's domain — directional pad, back-trigger effect or status,
    /// battery charge state — fails the decode with
    /// [`DecodeError::InvalidEnumerationCode`] rather than coercing to a
    /// valid-looking value.
    pub fn decode(buf: &[u8]) -> (r: Result<DualSenseState, DecodeError>)
        ensures
            r == spec_decode(buf@),
            buf@.len() != 64 ==> r == Err::<DualSenseState, DecodeError>(DecodeError::WrongSize),
            buf@.len() == 64 && buf@[0] != 0 && buf@[0] != 1 ==> r == Err::<
                DualSenseState,
                DecodeError,
            >(DecodeError::UnsupportedReportType),
    {
        if buf.len() != 64 {
            return Err(DecodeError::WrongSize);
        }
        let header: u8 = buf[0];
        if header != 0 && header != 1 {
            return Err(DecodeError::UnsupportedReportType);
        }
        let sticks = match decode_sticks(buf) {
            Ok(v) => v,
            Err(e) => return Err(e),
        };
        let directional_pad = match decode_dpad(buf) {
            Ok(v) => v,
            Err(e) => return Err(e),
        };
        let action_buttons = match decode_action_buttons(buf) {
            Ok(v) => v,
            Err(e) => return Err(e),
        };
        let menus = match decode_menus(buf) {
            Ok(v) => v,
            Err(e) => return Err(e),
        };
        let touchpad = match decode_touchpad(buf) {
            Ok(v) => v,
            Err(e) => return Err(e),
        };
        let front_triggers = match decode_front_triggers(buf) {
            Ok(v) => v,
            Err(e) => return Err(e),
        };
        let back_triggers = match decode_back_triggers(buf) {
            Ok(v) => v,
            Err(e) => return Err(e),
        };
        let angular_velocity = decode_angular_velocity(buf);
        let acceleration = decode_acceleration(buf);
        let plugged = match decode_plugged_group(buf) {
            Ok(v) => v,
            Err(e) => return Err(e),
        };
        let temperature = TemperatureState::Celsius(i8_from_bits(buf[32]));
        let power = match decode_power(buf) {
            Ok(v) => v,
            Err(e) => return Err(e),
        };
        Ok(
            DualSenseState {
                sticks,
                directional_pad,
                action_buttons,
                menus,
                touchpad,
                front_triggers,
                back_triggers,
                angular_velocity,
                acceleration,
                plugged,
                temperature,
                power,
            },
        )
    }

    /// Get the left analog stick state.
    pub fn left_stick(&self) -> (r: StickState)
        ensures
            r == self.sticks.left,
    {
        self.sticks.left
    }

    /// Get the right analog stick state.
    pub fn right_stick(&self) -> (r: StickState)
        ensures
            r == self.sticks.right,
    {
        self.sticks.right
    }

    /// Get the `Square` button state.
    pub fn square(&self) -> (r: ButtonState)
        ensures
            r == self.action_buttons.square,
    {
        self.action_buttons.square
    }

    /// Get the `Triangle` button state.
    pub fn triangle(&self) -> (r: ButtonState)
        ensures
            r == self.action_buttons.triangle,
    {
        self.action_buttons.triangle
    }

    /// Get the `Circle` button state.
    pub fn circle(&self) -> (r: ButtonState)
        ensures
            r == self.action_buttons.circle,
    {
        self.action_buttons.circle
    }

    /// Get the `Cross` button state.
    pub fn cross(&self) -> (r: ButtonState)
        ensures
            r == self.action_buttons.cross,
    {
        self.action_buttons.cross
    }

    /// Get the directional pad state.
    pub fn dpad(&self) -> (r: DPadDirection)
        ensures
            r == self.directional_pad,
    {
        self.directional_pad
    }

    /// Get the `Create` button state.
    pub fn create_menu(&self) -> (r: ButtonState)
        ensures
            r == self.menus.create,
    {
        self.menus.create
    }

    /// Get the `Options` button state.
    pub fn options_menu(&self) -> (r: ButtonState)
        ensures
            r == self.menus.options,
    {
        self.menus.options
    }

    /// Get the `Home (PS)` button state.
    pub fn home_menu(&self) -> (r: ButtonState)
        ensures
            r == self.menus.home,
    {
        self.menus.home
    }

    /// Get the `Mute` button state.
    pub fn mute_menu(&self) -> (r: ButtonState)
        ensures
            r == self.menus.mute,
    {
        self.menus.mute
    }

    /// Get the `L1` button state.
    pub fn l1(&self) -> (r: ButtonState)
        ensures
            r == self.front_triggers.l1,
    {
        self.front_triggers.l1
    }

    /// Get the `R1` button state.
    pub fn r1(&self) -> (r: ButtonState)
        ensures
            r == self.front_triggers.r1,
    {
        self.front_triggers.r1
    }

    /// Get the `L2` button state.
    pub fn l2(&self) -> (r: BackTriggerState)
        ensures
            r == self.back_triggers.l2,
    {
        self.back_triggers.l2
    }

    /// Get the `R2` button state.
    pub fn r2(&self) -> (r: BackTriggerState)
        ensures
            r == self.back_triggers.r2,
    {
        self.back_triggers.r2
    }

    /// Get the angular velocity of the controller.
    pub fn gyroscope(&self) -> (r: AngularVelocityState)
        ensures
            r == self.angular_velocity,
    {
        self.angular_velocity
    }

    /// Get the acceleration of the controller.
    pub fn acceleration(&self) -> (r: AccelerationState)
        ensures
            r == self.acceleration,
    {
        self.acceleration
    }

    /// Get the state of the headphone.
    pub fn headphone(&self) -> (r: PluggedState)
        ensures
            r == self.plugged.headphone,
    {
        self.plugged.headphone
    }

    /// Get the state of the microphone.
    pub fn microphone(&self) -> (r: MicrophoneState)
        ensures
            r == self.plugged.microphone,
    {
        self.plugged.microphone
    }

    /// Get the state of the USB.
    pub fn usb(&self) -> (r: USBState)
        ensures
            r == self.plugged.usb,
    {
        self.plugged.usb
    }

    /// Get the temperature of the controller.
    pub fn temperature(&self) -> (r: TemperatureState)
        ensures
            r == self.temperature,
    {
        self.temperature
    }

    /// Get the state of the controller battery.
    pub fn battery_status(&self) -> (r: PowerState)
        ensures
            r == self.power.state,
    {
        self.power.state
    }

    /// Get the percentage of the controller battery.
    pub fn battery_percent(&self) -> (r: u8)
        ensures
            r == self.power.percent,
    {
        self.power.percent
    }
}

} // verus!
