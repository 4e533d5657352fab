use duplosentido::mappings::{
    BackTriggerEffect, BackTriggerStatus, ButtonState, DPadDirection, MutedState, PluggedState,
    PowerState, TemperatureState,
};
use duplosentido::{DecodeError, DualSenseState, ReportField};

/// A 64-byte report whose bytes are all zero except the header.
fn report(header: u8) -> [u8; 64] {
    let mut buffer = [0u8; 64];
    buffer[0] = header;
    buffer
}

#[test]
fn wrong_size_fails() {
    assert_eq!(DualSenseState::decode(&[]), Err(DecodeError::WrongSize));
    assert_eq!(DualSenseState::decode(&[0u8; 1]), Err(DecodeError::WrongSize));
    assert_eq!(DualSenseState::decode(&[1u8; 63]), Err(DecodeError::WrongSize));
    assert_eq!(DualSenseState::decode(&[1u8; 65]), Err(DecodeError::WrongSize));
    assert_eq!(DualSenseState::decode(&[1u8; 546]), Err(DecodeError::WrongSize));
}

#[test]
fn unsupported_report_type_fails() {
    for header in [0x02u8, 0x05, 0x31, 0x80, 0xFF] {
        let buffer = report(header);
        assert_eq!(
            DualSenseState::decode(&buffer),
            Err(DecodeError::UnsupportedReportType)
        );
    }
}

#[test]
fn zero_report_decodes_to_idle_state() {
    let buffer = report(0x00);
    let state = DualSenseState::decode(&buffer).unwrap();

    assert!(!state.square().is_pressed());
    assert!(!state.cross().is_pressed());
    assert!(!state.circle().is_pressed());
    assert!(!state.triangle().is_pressed());
    assert!(!state.create_menu().is_pressed());
    assert!(!state.options_menu().is_pressed());
    assert!(!state.home_menu().is_pressed());
    assert!(!state.mute_menu().is_pressed());
    assert!(!state.l1().is_pressed());
    assert!(!state.r1().is_pressed());
    assert!(!state.l2().button().is_pressed());
    assert!(!state.r2().button().is_pressed());
    assert!(!state.left_stick().button().is_pressed());
    assert!(!state.right_stick().button().is_pressed());

    // A zero directional-pad nibble is the north direction; the neutral pad
    // is code 8, not 0.
    assert_eq!(state.dpad(), DPadDirection::North);

    assert_eq!(state.left_stick().x(), 0);
    assert_eq!(state.left_stick().y(), 0);
    assert_eq!(state.right_stick().x(), 0);
    assert_eq!(state.right_stick().y(), 0);

    assert_eq!(state.l2().axis(), 0);
    assert_eq!(state.r2().axis(), 0);
    assert_eq!(state.l2().effect(), BackTriggerEffect::Off);
    assert_eq!(state.r2().effect(), BackTriggerEffect::Off);
    assert_eq!(state.l2().status(), BackTriggerStatus::FeedbackNoLoad);
    assert_eq!(state.r2().status(), BackTriggerStatus::FeedbackNoLoad);

    assert!(!state.headphone().is_plugged());
    assert!(!state.microphone().is_plugged());
    assert!(!state.microphone().is_muted());
    assert!(!state.microphone().external());
    assert!(!state.usb().data().is_plugged());
    assert!(!state.usb().power().is_plugged());

    assert_eq!(state.battery_status(), PowerState::Discharging);
    assert_eq!(state.battery_percent(), 0);

    assert_eq!(state.gyroscope().x(), 0);
    assert_eq!(state.gyroscope().y(), 0);
    assert_eq!(state.gyroscope().z(), 0);
    assert_eq!(state.acceleration().x(), 0);
    assert_eq!(state.acceleration().y(), 0);
    assert_eq!(state.acceleration().z(), 0);

    assert_eq!(state.temperature(), TemperatureState::Celsius(0));
}

#[test]
fn header_one_is_accepted() {
    let buffer = report(0x01);
    assert!(DualSenseState::decode(&buffer).is_ok());
}

#[test]
fn sticks_decode_axes_and_buttons() {
    let mut buffer = report(0x01);
    buffer[1] = 10;
    buffer[2] = 20;
    buffer[3] = 30;
    buffer[4] = 40;
    buffer[9] = 0xC0; // L3 (0x40) and R3 (0x80) pressed.
    let state = DualSenseState::decode(&buffer).unwrap();

    assert_eq!(state.left_stick().x(), 10);
    assert_eq!(state.left_stick().y(), 20);
    assert_eq!(state.right_stick().x(), 30);
    assert_eq!(state.right_stick().y(), 40);
    assert_eq!(state.left_stick().button(), ButtonState::Pressed);
    assert_eq!(state.right_stick().button(), ButtonState::Pressed);
    assert!(!state.l1().is_pressed());
    assert!(!state.create_menu().is_pressed());
}

#[test]
fn action_buttons_decode_from_high_nibble() {
    let mut buffer = report(0x01);
    buffer[8] = 0x38; // Square and cross pressed, directional pad neutral (8).
    let state = DualSenseState::decode(&buffer).unwrap();

    assert_eq!(state.square(), ButtonState::Pressed);
    assert_eq!(state.cross(), ButtonState::Pressed);
    assert_eq!(state.circle(), ButtonState::Released);
    assert_eq!(state.triangle(), ButtonState::Released);
    assert_eq!(state.dpad(), DPadDirection::Neutral);
}

#[test]
fn dpad_decodes_every_compass_code() {
    let directions = [
        DPadDirection::North,
        DPadDirection::NorthEast,
        DPadDirection::East,
        DPadDirection::SouthEast,
        DPadDirection::South,
        DPadDirection::SouthWest,
        DPadDirection::West,
        DPadDirection::NorthWest,
        DPadDirection::Neutral,
    ];
    for (code, direction) in directions.iter().enumerate() {
        let mut buffer = report(0x01);
        buffer[8] = code as u8;
        let state = DualSenseState::decode(&buffer).unwrap();
        assert_eq!(state.dpad(), *direction);
    }
}

#[test]
fn dpad_code_nine_and_above_fails() {
    for code in 9u8..=15 {
        let mut buffer = report(0x01);
        buffer[8] = code;
        assert_eq!(
            DualSenseState::decode(&buffer),
            Err(DecodeError::InvalidEnumerationCode {
                field: ReportField::DPad,
                value: code,
            })
        );
    }
}

#[test]
fn menu_buttons_decode_from_scattered_bits() {
    let mut buffer = report(0x01);
    buffer[9] = 0x30; // Create (0x10) and options (0x20) pressed.
    buffer[10] = 0x05; // Home (0x01) and mute (0x04) pressed.
    let state = DualSenseState::decode(&buffer).unwrap();

    assert_eq!(state.create_menu(), ButtonState::Pressed);
    assert_eq!(state.options_menu(), ButtonState::Pressed);
    assert_eq!(state.home_menu(), ButtonState::Pressed);
    assert_eq!(state.mute_menu(), ButtonState::Pressed);
    assert!(!state.left_stick().button().is_pressed());
}

#[test]
fn front_and_back_trigger_bits_decode() {
    let mut buffer = report(0x01);
    buffer[9] = 0x0F; // L1, R1, L2 and R2 bits.
    buffer[5] = 0x80; // L2 axis.
    buffer[6] = 0xFF; // R2 axis.
    let state = DualSenseState::decode(&buffer).unwrap();

    assert_eq!(state.l1(), ButtonState::Pressed);
    assert_eq!(state.r1(), ButtonState::Pressed);
    assert_eq!(state.l2().button(), ButtonState::Pressed);
    assert_eq!(state.r2().button(), ButtonState::Pressed);
    assert_eq!(state.l2().axis(), 0x80);
    assert_eq!(state.r2().axis(), 0xFF);
}

#[test]
fn back_trigger_effect_and_status_decode_jointly() {
    let mut buffer = report(0x01);
    buffer[48] = 0x21; // L2 effect in the high nibble: 2 (weapon); R2 in the low: 1 (feedback).
    buffer[43] = 0x20; // L2 status nibble: 2.
    buffer[42] = 0x10; // R2 status nibble: 1.
    let state = DualSenseState::decode(&buffer).unwrap();

    assert_eq!(state.l2().effect(), BackTriggerEffect::Weapon);
    assert_eq!(state.l2().status(), BackTriggerStatus::WeaponFired);
    assert_eq!(state.r2().effect(), BackTriggerEffect::Feedback);
    assert_eq!(state.r2().status(), BackTriggerStatus::FeedbackLoadApplied);
}

#[test]
fn off_effect_ignores_status_nibble() {
    let mut buffer = report(0x01);
    buffer[48] = 0x00; // Both effects off.
    buffer[43] = 0xF0; // L2 status nibble 15: ignored.
    buffer[42] = 0x70; // R2 status nibble 7: ignored.
    let state = DualSenseState::decode(&buffer).unwrap();

    assert_eq!(state.l2().status(), BackTriggerStatus::FeedbackNoLoad);
    assert_eq!(state.r2().status(), BackTriggerStatus::FeedbackNoLoad);
}

#[test]
fn vibration_status_two_fails() {
    let mut buffer = report(0x01);
    buffer[48] = 0x33; // Both effects: vibration.
    buffer[43] = 0x20; // L2 status nibble 2: outside vibration's domain {0, 1}.
    assert_eq!(
        DualSenseState::decode(&buffer),
        Err(DecodeError::InvalidEnumerationCode {
            field: ReportField::TriggerStatus,
            value: 2,
        })
    );
}

#[test]
fn reserved_effect_code_fails() {
    let mut buffer = report(0x01);
    buffer[48] = 0x40; // L2 effect nibble 4: reserved.
    assert_eq!(
        DualSenseState::decode(&buffer),
        Err(DecodeError::InvalidEnumerationCode {
            field: ReportField::TriggerEffect,
            value: 4,
        })
    );
}

#[test]
fn gyroscope_x_decodes_little_endian_signed() {
    let mut buffer = report(0x01);
    buffer[16] = 0x10;
    buffer[17] = 0x00;
    let state = DualSenseState::decode(&buffer).unwrap();
    assert_eq!(state.gyroscope().x(), 16);

    let mut buffer = report(0x01);
    buffer[16] = 0xFF;
    buffer[17] = 0xFF;
    let state = DualSenseState::decode(&buffer).unwrap();
    assert_eq!(state.gyroscope().x(), -1);
}

#[test]
fn motion_pairs_decode_from_their_offsets() {
    let mut buffer = report(0x01);
    buffer[20] = 0x01; // Gyroscope Y low byte.
    buffer[21] = 0x02; // Gyroscope Y high byte.
    buffer[18] = 0xFE; // Gyroscope Z low byte.
    buffer[19] = 0xFF; // Gyroscope Z high byte.
    buffer[22] = 0x2A; // Acceleration X low byte.
    buffer[24] = 0x00; // Acceleration Y low byte.
    buffer[25] = 0x80; // Acceleration Y high byte.
    buffer[26] = 0xFF; // Acceleration Z low byte.
    buffer[27] = 0x7F; // Acceleration Z high byte.
    let state = DualSenseState::decode(&buffer).unwrap();

    assert_eq!(state.gyroscope().y(), 0x0201);
    assert_eq!(state.gyroscope().z(), -2);
    assert_eq!(state.acceleration().x(), 42);
    assert_eq!(state.acceleration().y(), i16::MIN);
    assert_eq!(state.acceleration().z(), i16::MAX);
}

#[test]
fn temperature_decodes_signed_celsius() {
    let mut buffer = report(0x01);
    buffer[32] = 0xEC; // Two's complement of -20.
    let state = DualSenseState::decode(&buffer).unwrap();
    assert_eq!(state.temperature(), TemperatureState::Celsius(-20));

    let mut buffer = report(0x01);
    buffer[32] = 35;
    let state = DualSenseState::decode(&buffer).unwrap();
    assert_eq!(state.temperature(), TemperatureState::Celsius(35));
}

#[test]
fn plugged_bits_decode() {
    let mut buffer = report(0x01);
    buffer[54] = 0x1F; // Headphone, microphone, muted, USB data, USB power.
    buffer[55] = 0x01; // External microphone.
    let state = DualSenseState::decode(&buffer).unwrap();

    assert_eq!(state.headphone(), PluggedState::Plugged);
    assert!(state.headphone().is_plugged());
    assert_eq!(state.microphone().plugged(), PluggedState::Plugged);
    assert_eq!(state.microphone().muted(), MutedState::Muted);
    assert!(state.microphone().is_muted());
    assert!(state.microphone().external());
    assert_eq!(state.usb().data(), PluggedState::Plugged);
    assert_eq!(state.usb().power(), PluggedState::Plugged);
}

#[test]
fn power_nibbles_decode() {
    let mut buffer = report(0x01);
    buffer[53] = 0x1A; // Charging at 10 of 15.
    let state = DualSenseState::decode(&buffer).unwrap();
    assert_eq!(state.battery_status(), PowerState::Charging);
    assert_eq!(state.battery_percent(), 10);

    let mut buffer = report(0x01);
    buffer[53] = 0xF0; // Charging error at 0.
    let state = DualSenseState::decode(&buffer).unwrap();
    assert_eq!(state.battery_status(), PowerState::ChargingError);
    assert_eq!(state.battery_percent(), 0);
}

#[test]
fn invalid_power_code_fails() {
    let mut buffer = report(0x01);
    buffer[53] = 0x30; // Charge-state nibble 3: undocumented.
    assert_eq!(
        DualSenseState::decode(&buffer),
        Err(DecodeError::InvalidEnumerationCode {
            field: ReportField::Power,
            value: 3,
        })
    );
}

#[test]
fn touchpad_records_decode() {
    let mut buffer = report(0x01);
    buffer[10] = 0x02; // Touchpad clicked.
    buffer[33] = 0x05; // First finger: counter 5, touching (bit 7 clear).
    buffer[34] = 0x34; // First finger X low byte.
    buffer[35] = 0xA2; // X high nibble 2, Y low nibble 10.
    buffer[36] = 0x5D; // First finger Y high byte.
    buffer[37] = 0x86; // Second finger: counter 6, not touching (bit 7 set).
    buffer[41] = 0x7B; // Touch timestamp.
    let state = DualSenseState::decode(&buffer).unwrap();

    let touchpad = state.touchpad;
    assert_eq!(touchpad.state, ButtonState::Pressed);
    assert_eq!(touchpad.finger[0].index, 5);
    assert!(touchpad.finger[0].is_touching);
    assert_eq!(touchpad.finger[0].x, 0x234);
    assert_eq!(touchpad.finger[0].y, 10 + 16 * 0x5D);
    assert_eq!(touchpad.finger[1].index, 6);
    assert!(!touchpad.finger[1].is_touching);
    assert_eq!(touchpad.timestamp, 0x7B);
}

#[test]
fn first_failing_field_wins() {
    // Both the directional pad and the power nibble are invalid; the
    // directional pad is decoded first.
    let mut buffer = report(0x01);
    buffer[8] = 0x0C;
    buffer[53] = 0x30;
    assert_eq!(
        DualSenseState::decode(&buffer),
        Err(DecodeError::InvalidEnumerationCode {
            field: ReportField::DPad,
            value: 12,
        })
    );
}
