use duplosentido::mappings::{
    BackTriggerEffect, BackTriggerStatus, ButtonState, DPadDirection, MutedState, PluggedState,
    PowerState,
};
use duplosentido::{DecodeError, Error, Mode, ProductID, RawInputReportUSB, ReportField, VendorID};

#[test]
fn button_state_round_trips() {
    for code in 0u8..=1 {
        assert_eq!(ButtonState::from_raw(code).unwrap().raw(), code);
    }
    assert_eq!(ButtonState::from_raw(0), Ok(ButtonState::Released));
    assert_eq!(ButtonState::from_raw(1), Ok(ButtonState::Pressed));
    assert_eq!(
        ButtonState::from_raw(2),
        Err(DecodeError::InvalidEnumerationCode {
            field: ReportField::Button,
            value: 2,
        })
    );
}

#[test]
fn plugged_state_round_trips() {
    for code in 0u8..=1 {
        assert_eq!(PluggedState::from_raw(code).unwrap().raw(), code);
    }
    assert_eq!(PluggedState::from_raw(0), Ok(PluggedState::Unplugged));
    assert_eq!(PluggedState::from_raw(1), Ok(PluggedState::Plugged));
    assert_eq!(
        PluggedState::from_raw(7),
        Err(DecodeError::InvalidEnumerationCode {
            field: ReportField::Plugged,
            value: 7,
        })
    );
}

#[test]
fn muted_state_round_trips() {
    for code in 0u8..=1 {
        assert_eq!(MutedState::from_raw(code).unwrap().raw(), code);
    }
    assert_eq!(MutedState::from_raw(0), Ok(MutedState::Unmuted));
    assert_eq!(MutedState::from_raw(1), Ok(MutedState::Muted));
    assert_eq!(
        MutedState::from_raw(3),
        Err(DecodeError::InvalidEnumerationCode {
            field: ReportField::Muted,
            value: 3,
        })
    );
}

#[test]
fn power_state_round_trips() {
    for code in [0x00u8, 0x01, 0x02, 0x0A, 0x0B, 0x0F] {
        assert_eq!(PowerState::from_raw(code).unwrap().raw(), code);
    }
    assert_eq!(PowerState::from_raw(0x00), Ok(PowerState::Discharging));
    assert_eq!(PowerState::from_raw(0x01), Ok(PowerState::Charging));
    assert_eq!(PowerState::from_raw(0x02), Ok(PowerState::Complete));
    assert_eq!(PowerState::from_raw(0x0A), Ok(PowerState::AbnormalVoltage));
    assert_eq!(
        PowerState::from_raw(0x0B),
        Ok(PowerState::AbnormalTemperature)
    );
    assert_eq!(PowerState::from_raw(0x0F), Ok(PowerState::ChargingError));
    for code in [0x03u8, 0x04, 0x05, 0x06, 0x07, 0x08, 0x09, 0x0C, 0x0D, 0x0E] {
        assert_eq!(
            PowerState::from_raw(code),
            Err(DecodeError::InvalidEnumerationCode {
                field: ReportField::Power,
                value: code,
            })
        );
    }
}

#[test]
fn dpad_round_trips() {
    for code in 0u8..=8 {
        assert_eq!(DPadDirection::from_raw(code).unwrap().raw(), code);
    }
    assert_eq!(DPadDirection::from_raw(0), Ok(DPadDirection::North));
    assert_eq!(DPadDirection::from_raw(8), Ok(DPadDirection::Neutral));
    for code in 9u8..=255 {
        assert_eq!(
            DPadDirection::from_raw(code),
            Err(DecodeError::InvalidEnumerationCode {
                field: ReportField::DPad,
                value: code,
            })
        );
    }
}

#[test]
fn back_trigger_effect_round_trips() {
    for code in 0u8..=3 {
        assert_eq!(BackTriggerEffect::from_raw(code).unwrap().raw(), code);
    }
    assert_eq!(BackTriggerEffect::from_raw(0), Ok(BackTriggerEffect::Off));
    assert_eq!(
        BackTriggerEffect::from_raw(1),
        Ok(BackTriggerEffect::Feedback)
    );
    assert_eq!(BackTriggerEffect::from_raw(2), Ok(BackTriggerEffect::Weapon));
    assert_eq!(
        BackTriggerEffect::from_raw(3),
        Ok(BackTriggerEffect::Vibration)
    );
    for code in 4u8..=15 {
        assert_eq!(
            BackTriggerEffect::from_raw(code),
            Err(DecodeError::InvalidEnumerationCode {
                field: ReportField::TriggerEffect,
                value: code,
            })
        );
    }
}

#[test]
fn back_trigger_status_round_trips_per_effect() {
    for code in 0u8..=1 {
        assert_eq!(
            BackTriggerStatus::from_raw(code, BackTriggerEffect::Feedback)
                .unwrap()
                .raw(),
            code
        );
        assert_eq!(
            BackTriggerStatus::from_raw(code, BackTriggerEffect::Vibration)
                .unwrap()
                .raw(),
            code
        );
    }
    for code in 0u8..=2 {
        assert_eq!(
            BackTriggerStatus::from_raw(code, BackTriggerEffect::Weapon)
                .unwrap()
                .raw(),
            code
        );
    }
}

#[test]
fn back_trigger_status_weapon_two_is_fired() {
    assert_eq!(
        BackTriggerStatus::from_raw(2, BackTriggerEffect::Weapon),
        Ok(BackTriggerStatus::WeaponFired)
    );
}

#[test]
fn back_trigger_status_off_ignores_code() {
    for code in 0u8..=15 {
        assert_eq!(
            BackTriggerStatus::from_raw(code, BackTriggerEffect::Off),
            Ok(BackTriggerStatus::FeedbackNoLoad)
        );
    }
}

#[test]
fn back_trigger_status_out_of_domain_fails() {
    for code in 2u8..=15 {
        assert_eq!(
            BackTriggerStatus::from_raw(code, BackTriggerEffect::Feedback),
            Err(DecodeError::InvalidEnumerationCode {
                field: ReportField::TriggerStatus,
                value: code,
            })
        );
        assert_eq!(
            BackTriggerStatus::from_raw(code, BackTriggerEffect::Vibration),
            Err(DecodeError::InvalidEnumerationCode {
                field: ReportField::TriggerStatus,
                value: code,
            })
        );
    }
    for code in 3u8..=15 {
        assert_eq!(
            BackTriggerStatus::from_raw(code, BackTriggerEffect::Weapon),
            Err(DecodeError::InvalidEnumerationCode {
                field: ReportField::TriggerStatus,
                value: code,
            })
        );
    }
}

#[test]
fn button_state_predicates() {
    assert!(ButtonState::Pressed.is_pressed());
    assert!(!ButtonState::Released.is_pressed());
    assert!(PluggedState::Plugged.is_plugged());
    assert!(!PluggedState::Unplugged.is_plugged());
    assert!(MutedState::Muted.is_muted());
    assert!(!MutedState::Unmuted.is_muted());
}

#[test]
fn modes_and_errors_are_plain_values() {
    let mode = Mode::Blocking;
    assert_eq!(mode, Mode::Blocking);
    assert_ne!(mode, Mode::NonBlocking);
    assert_ne!(Error::Bind, Error::Update);
    assert_eq!(Error::Exit, Error::Exit);
}

#[test]
fn device_identifiers_wrap_their_codes() {
    let vendor = VendorID::new(0x054C);
    let product = ProductID::new(0x0CE6);
    assert_eq!(vendor.id(), 0x054C);
    assert_eq!(product.id(), 0x0CE6);
}

#[test]
fn raw_report_wraps_its_bytes() {
    let mut bytes = [0u8; 64];
    bytes[0] = 0x01;
    bytes[63] = 0xAA;
    let report = RawInputReportUSB::new(bytes);
    assert_eq!(report.as_array()[0], 0x01);
    assert_eq!(report.as_array()[63], 0xAA);
    assert_eq!(report.as_array().len(), 64);
}
