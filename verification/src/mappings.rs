//! The mappings for the DualSense controller.
//!
//! This layout provides an intuitive, ergonomic and type-safe experience for
//! all the inputs of the DualSense controller. Buttons and parts are
//! represented as states, which are snapshots of a controller component as it
//! was during its last update.

pub mod group;

mod state;

pub use state::{
    lemma_back_trigger_effect_round_trip, lemma_back_trigger_status_round_trip,
    lemma_button_state_round_trip, lemma_dpad_rejects_out_of_range, lemma_dpad_round_trip,
    lemma_muted_state_round_trip, lemma_off_effect_ignores_status, lemma_plugged_state_round_trip,
    lemma_power_state_round_trip, AccelerationState, AngularVelocityState, Axis, BackTriggerEffect,
    BackTriggerState, BackTriggerStatus, BackTriggerStop, ButtonState, DPadDirection, FingerData,
    MicrophoneState, MutedState, PluggedState, PowerState, StickCoordinates, StickState,
    TemperatureState, TouchPadState, USBState,
};
