use grainfather::{
    Delay, GrainfatherCommand, GrainfatherNotification, GrainfatherNotificationConvertError,
    Temperature, Units, Voltage, COMMAND_LEN, NOTIFICATION_LEN,
};

fn padded(text: &str) -> Vec<u8> {
    let mut v = text.as_bytes().to_vec();
    while v.len() < NOTIFICATION_LEN {
        v.push(b' ');
    }
    v
}

fn frame(text: &str) -> Vec<u8> {
    let mut v = text.as_bytes().to_vec();
    while v.len() < COMMAND_LEN {
        v.push(b' ');
    }
    v
}

fn temp(tenths: u32) -> Temperature {
    Temperature { tenths }
}

#[test]
fn it_works() {
    assert_eq!(2 + 2, 4);
}

#[test]
fn every_command_is_nineteen_bytes_space_padded() {
    let commands = vec![
        (GrainfatherCommand::Reset, "Z"),
        (GrainfatherCommand::GetFirmwareVersion, "X"),
        (GrainfatherCommand::GetVoltageAndUnits, "g"),
        (GrainfatherCommand::GetBoilTemperature, "M"),
        (GrainfatherCommand::ToggleHeatActive, "H"),
        (GrainfatherCommand::SetHeatActive(true), "K1"),
        (GrainfatherCommand::SetHeatActive(false), "K0"),
        (GrainfatherCommand::TogglePumpActive, "P"),
        (GrainfatherCommand::SetPumpActive(true), "L1"),
        (GrainfatherCommand::SetPumpActive(false), "L0"),
        (GrainfatherCommand::EnableDelayedHeatTimer { minutes: 12, seconds: 30 }, "B12,30"),
        (GrainfatherCommand::CancelActiveTimer, "C"),
        (GrainfatherCommand::UpdateActiveTimer(Delay::MinutesSeconds(1, 5)), "W1,5"),
        (GrainfatherCommand::UpdateActiveTimer(Delay::Minutes(60)), "S60"),
        (GrainfatherCommand::PauseOrResumeActiveTimer, "G"),
        (GrainfatherCommand::IncrementTargetTemperature, "U"),
        (GrainfatherCommand::DecrementTargetTemperature, "D"),
        (GrainfatherCommand::SetTargetTemperature(temp(650)), "$65"),
        (GrainfatherCommand::SetLocalBoilTemperature(temp(995)), "E99.5"),
        (GrainfatherCommand::DismissBoilAdditionAlert, "A"),
        (GrainfatherCommand::CancelOrFinishSession, "F"),
        (GrainfatherCommand::PressSet, "T"),
        (GrainfatherCommand::DisableSpargeWaterAlert, "V"),
        (GrainfatherCommand::ResetRecipeInterrupted, "!"),
        (GrainfatherCommand::SetSpargeCounterActive(true), "d1"),
        (GrainfatherCommand::SetBoilControlActive(false), "e0"),
        (GrainfatherCommand::SetManualPowerControlActive(true), "f1"),
        (GrainfatherCommand::SetSpargeAlertModeActive(false), "h0"),
    ];
    for (command, text) in commands {
        let bytes = command.to_vec();
        assert_eq!(bytes.len(), 19);
        assert_eq!(bytes, frame(text));
        assert!(bytes[text.len()..].iter().all(|b| *b == b' '));
    }
}

#[test]
fn largest_parameters_still_fit() {
    let c = GrainfatherCommand::EnableDelayedHeatTimer { minutes: u32::MAX, seconds: u8::MAX };
    assert_eq!(c.to_vec(), frame("B4294967295,255"));
    let c = GrainfatherCommand::SetTargetTemperature(temp(u32::MAX));
    assert_eq!(c.to_vec(), frame("$429496729.5"));
    let c = GrainfatherCommand::SetTargetTemperature(temp(0));
    assert_eq!(c.to_vec(), frame("$0"));
    let c = GrainfatherCommand::SetTargetTemperature(temp(7));
    assert_eq!(c.to_vec(), frame("$0.7"));
}

#[test]
fn decodes_temperatures() {
    let n = GrainfatherNotification::try_from(padded("X65.0,64.3").as_slice()).unwrap();
    assert_eq!(n, GrainfatherNotification::Temp { desired: temp(650), current: temp(643) });
}

#[test]
fn decodes_voltage_and_units() {
    let n = GrainfatherNotification::try_from(padded("V1,1").as_slice()).unwrap();
    assert_eq!(n, GrainfatherNotification::VoltageAndUnits { voltage: Voltage::V110, units: Units::Celsius });
    let n = GrainfatherNotification::try_from(padded("V0,0").as_slice()).unwrap();
    assert_eq!(
        n,
        GrainfatherNotification::VoltageAndUnits { voltage: Voltage::V230, units: Units::Fahrenheit }
    );
}

#[test]
fn unknown_tag_is_other() {
    let n = GrainfatherNotification::try_from(padded("Qabc").as_slice()).unwrap();
    assert_eq!(n, GrainfatherNotification::Other('Q', "abc".to_string()));
}

#[test]
fn decodes_delayed_heat_timer_in_wire_order() {
    let n = GrainfatherNotification::try_from(padded("T1,5,10,30").as_slice()).unwrap();
    assert_eq!(
        n,
        GrainfatherNotification::DelayedHeatTimer {
            active: true,
            remaining_minutes: 5,
            remaining_seconds: 30,
            total_start_time: 10,
        }
    );
}

#[test]
fn decodes_status_records() {
    let n = GrainfatherNotification::try_from(padded("Y1,0,1,0,1,7,3,0").as_slice()).unwrap();
    assert_eq!(
        n,
        GrainfatherNotification::Status1 {
            heat_active: true,
            pump_active: false,
            auto_mode_active: true,
            stage_ramp_active: false,
            interaction_mode_active: true,
            interaction_code: 7,
            stage_number: 3,
            delayed_heat_mode_active: false,
        }
    );
    let n = GrainfatherNotification::try_from(padded("W100,1,0,1,0,1").as_slice()).unwrap();
    assert_eq!(
        n,
        GrainfatherNotification::Status2 {
            heat_power_output_percentage: 100,
            timer_paused: true,
            step_mash_mode: false,
            recipe_interrupted: true,
            manual_power_mode: false,
            sparge_water_alert_displayed: true,
        }
    );
}

#[test]
fn decodes_interaction_boil_and_firmware() {
    let n = GrainfatherNotification::try_from(padded("I12").as_slice()).unwrap();
    assert_eq!(n, GrainfatherNotification::Interaction { interaction_code: 12 });
    let n = GrainfatherNotification::try_from(padded("C100").as_slice()).unwrap();
    assert_eq!(n, GrainfatherNotification::Boil { boil_temperature: temp(1000) });
    let n = GrainfatherNotification::try_from(padded("F1.2.3").as_slice()).unwrap();
    assert_eq!(n, GrainfatherNotification::FirmwareVersion { firmware_version: "1.2.3".to_string() });
}

#[test]
fn extra_fields_are_ignored() {
    let n = GrainfatherNotification::try_from("X20.0,19.6,ZZZZZZ".as_bytes()).unwrap();
    assert_eq!(n, GrainfatherNotification::Temp { desired: temp(200), current: temp(196) });
}

#[test]
fn non_numeric_field_is_malformed() {
    let r = GrainfatherNotification::try_from(padded("Xab.c,64.3").as_slice());
    assert_eq!(r, Err(GrainfatherNotificationConvertError::MalformedField));
    let r = GrainfatherNotification::try_from(padded("V1,x").as_slice());
    assert_eq!(r, Err(GrainfatherNotificationConvertError::MalformedField));
}

#[test]
fn missing_field_is_malformed() {
    let r = GrainfatherNotification::try_from(padded("X65.0").as_slice());
    assert_eq!(r, Err(GrainfatherNotificationConvertError::MalformedField));
}

#[test]
fn out_of_range_byte_is_malformed() {
    let r = GrainfatherNotification::try_from(padded("I256").as_slice());
    assert_eq!(r, Err(GrainfatherNotificationConvertError::MalformedField));
}

#[test]
fn blank_record_is_other() {
    let r = GrainfatherNotification::try_from(padded("").as_slice());
    assert_eq!(r, Ok(GrainfatherNotification::Other(' ', String::new())));
}

#[test]
fn empty_text_is_malformed() {
    let r = GrainfatherNotification::try_from(&[][..]);
    assert_eq!(r, Err(GrainfatherNotificationConvertError::MalformedField));
}

#[test]
fn invalid_utf8_is_rejected() {
    let mut bytes = padded("X65.0,64.3");
    bytes[3] = 0xff;
    let r = GrainfatherNotification::try_from(bytes.as_slice());
    assert_eq!(r, Err(GrainfatherNotificationConvertError::InvalidUtf8));
}

#[test]
fn decodes_text_directly() {
    let chars: Vec<char> = "X65.5,64".chars().collect();
    let n = GrainfatherNotification::from_text(chars.as_slice()).unwrap();
    assert_eq!(n, GrainfatherNotification::Temp { desired: temp(655), current: temp(640) });
}
