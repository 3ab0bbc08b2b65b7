use half::f16;
use morningstar::binary16::Half;
use morningstar::prostar_mppt::error::Error;
use morningstar::prostar_mppt::error::Operation;
use morningstar::prostar_mppt::field::Encoding;
use morningstar::prostar_mppt::field::Field;
use morningstar::prostar_mppt::field::Range;
use morningstar::prostar_mppt::field::Value;
use morningstar::prostar_mppt::quantity::ElectricCurrent;
use morningstar::prostar_mppt::quantity::ElectricPotential;
use morningstar::prostar_mppt::quantity::ElectricalResistance;
use morningstar::prostar_mppt::quantity::Ratio;
use morningstar::prostar_mppt::quantity::TemperatureLimit;
use morningstar::prostar_mppt::quantity::Time;
use morningstar::prostar_mppt::Settings;

fn half(value: f32) -> Half {
    Half::from_bits(f16::from_f32(value).to_bits())
}

fn volts(value: f32) -> ElectricPotential {
    ElectricPotential { volts: half(value) }
}

fn amperes(value: f32) -> ElectricCurrent {
    ElectricCurrent { amperes: half(value) }
}

/// A configuration that a 12 V system might use.
fn sample() -> Settings {
    Settings {
        regulation_voltage: volts(14.4),
        float_voltage: volts(13.5),
        time_before_float: Time { seconds: 7200 },
        time_before_float_low_battery: Time { seconds: 10800 },
        float_low_battery_voltage_trigger: volts(12.0),
        float_cancel_voltage: volts(12.5),
        exit_float_time: Time { seconds: 1800 },
        equalize_voltage: volts(15.0),
        days_between_equalize_cycles: Time { seconds: 28 * 86400 },
        equalize_time_limit_above_regulation_voltage: Time { seconds: 3600 },
        equalize_time_limit_at_regulation_voltage: Time { seconds: 7200 },
        alarm_on_setting_change: true,
        reference_charge_voltage_limit: volts(15.5),
        battery_charge_current_limit: amperes(25.0),
        temperature_compensation_coefficent: volts(0.03),
        high_voltage_disconnect: volts(16.0),
        high_voltage_reconnect: volts(15.0),
        maximum_charge_voltage_reference: volts(15.5),
        max_battery_temp_compensation_limit: TemperatureLimit { degrees_celsius: 80 },
        min_battery_temp_compensation_limit: TemperatureLimit { degrees_celsius: -30 },
        load_low_voltage_disconnect: volts(11.5),
        load_low_voltage_reconnect: volts(12.6),
        load_high_voltage_disconnect: volts(15.3),
        load_high_voltage_reconnect: volts(14.5),
        lvd_load_current_compensation: ElectricalResistance { ohms: half(0.02) },
        lvd_warning_timeout: Time { seconds: 600 },
        led_green_to_green_and_yellow_limit: volts(13.1),
        led_green_and_yellow_to_yellow_limit: volts(12.8),
        led_yellow_to_yellow_and_red_limit: volts(12.4),
        led_yellow_and_red_to_red_flashing_limit: volts(12.0),
        modbus_id: 1,
        meterbus_id: 15,
        mppt_fixed_vmp: volts(0.0),
        mppt_fixed_vmp_percent: Ratio { fraction: half(0.75) },
        charge_current_limit: amperes(40.0),
    }
}

fn all_fields() -> Vec<Field> {
    let mut fields = Vec::new();
    for offset in 0..57 {
        if let Some(field) = Field::at(offset) {
            fields.push(field);
        }
    }
    fields
}

#[test]
fn the_configuration_block_has_thirty_five_fields_in_address_order() {
    let fields = all_fields();
    assert_eq!(fields.len(), 35);
    assert_eq!(fields[0], Field::RegulationVoltage);
    assert_eq!(fields[34], Field::ChargeCurrentLimit);
    for pair in fields.windows(2) {
        assert!(pair[0].address() < pair[1].address());
    }
    for field in fields {
        assert_eq!(field.address() as usize, 0xE000 + field.offset());
        assert_eq!(Field::at(field.offset()), Some(field));
    }
    assert_eq!(Field::at(0x0B), None);
    assert_eq!(Field::at(0x39), None);
    assert_eq!(Field::at(usize::MAX), None);
}

#[test]
fn fields_are_where_the_register_map_puts_them() {
    assert_eq!(Field::RegulationVoltage.address(), 0xE000);
    assert_eq!(Field::EqualizeTimeLimitAtRegulationVoltage.address(), 0xE00A);
    assert_eq!(Field::AlarmOnSettingChange.address(), 0xE00D);
    assert_eq!(Field::ReferenceChargeVoltageLimit.address(), 0xE010);
    assert_eq!(Field::BatteryChargeCurrentLimit.address(), 0xE013);
    assert_eq!(Field::TemperatureCompensationCoefficent.address(), 0xE01A);
    assert_eq!(Field::MaxBatteryTempCompensationLimit.address(), 0xE01E);
    assert_eq!(Field::MinBatteryTempCompensationLimit.address(), 0xE01F);
    assert_eq!(Field::LoadLowVoltageDisconnect.address(), 0xE022);
    assert_eq!(Field::LvdWarningTimeout.address(), 0xE027);
    assert_eq!(Field::LedGreenToGreenAndYellowLimit.address(), 0xE030);
    assert_eq!(Field::ModbusId.address(), 0xE034);
    assert_eq!(Field::MeterbusId.address(), 0xE035);
    assert_eq!(Field::MpptFixedVmp.address(), 0xE036);
    assert_eq!(Field::MpptFixedVmpPercent.address(), 0xE037);
    assert_eq!(Field::ChargeCurrentLimit.address(), 0xE038);
}

#[test]
fn fields_have_their_names() {
    assert_eq!(Field::RegulationVoltage.name(), "regulation_voltage");
    assert_eq!(Field::TemperatureCompensationCoefficent.name(), "temperature_compensation_coefficent");
    assert_eq!(Field::ModbusId.name(), "modbus_id");
    assert_eq!(Field::ChargeCurrentLimit.name(), "charge_current_limit");
}

#[test]
fn decode_reads_every_field_at_its_offset() {
    let mut raw = vec![0u16; 57];
    raw[0x00] = f16::from_f32(14.4).to_bits();
    raw[0x01] = f16::from_f32(13.5).to_bits();
    raw[0x02] = 7200;
    raw[0x08] = 28;
    raw[0x0D] = 1;
    raw[0x13] = f16::from_f32(25.0).to_bits();
    raw[0x1E] = 80;
    raw[0x1F] = 0xFFE2;
    raw[0x26] = f16::from_f32(0.02).to_bits();
    raw[0x27] = 10;
    raw[0x34] = 1;
    raw[0x35] = 15;
    raw[0x37] = f16::from_f32(0.75).to_bits();
    raw[0x38] = f16::from_f32(40.0).to_bits();
    let settings = Settings::decode(&raw).unwrap();
    assert_eq!(settings.regulation_voltage, volts(14.4));
    assert_eq!(settings.float_voltage, volts(13.5));
    assert_eq!(settings.time_before_float, Time { seconds: 7200 });
    assert_eq!(settings.days_between_equalize_cycles, Time { seconds: 28 * 86400 });
    assert!(settings.alarm_on_setting_change);
    assert_eq!(settings.battery_charge_current_limit, amperes(25.0));
    assert_eq!(settings.max_battery_temp_compensation_limit, TemperatureLimit { degrees_celsius: 80 });
    assert_eq!(settings.min_battery_temp_compensation_limit, TemperatureLimit { degrees_celsius: -30 });
    assert_eq!(settings.lvd_load_current_compensation, ElectricalResistance { ohms: half(0.02) });
    assert_eq!(settings.lvd_warning_timeout, Time { seconds: 600 });
    assert_eq!(settings.modbus_id, 1);
    assert_eq!(settings.meterbus_id, 15);
    assert_eq!(settings.mppt_fixed_vmp_percent, Ratio { fraction: half(0.75) });
    assert_eq!(settings.charge_current_limit, amperes(40.0));
    assert_eq!(settings.float_cancel_voltage, volts(0.0));
}

#[test]
fn signed_temperature_setting_in_a_block() {
    let mut raw = vec![0u16; 57];
    raw[0x1E] = 0xFF00;
    raw[0x1F] = 0xFF00;
    let settings = Settings::decode(&raw).unwrap();
    assert_eq!(settings.max_battery_temp_compensation_limit.degrees_celsius, -256);
    assert_eq!(settings.min_battery_temp_compensation_limit.degrees_celsius, -256);
}

#[test]
fn decode_reads_a_flag_as_set_only_from_one() {
    let mut raw = vec![0u16; 57];
    raw[0x0D] = 2;
    assert!(!Settings::decode(&raw).unwrap().alarm_on_setting_change);
    raw[0x0D] = 1;
    assert!(Settings::decode(&raw).unwrap().alarm_on_setting_change);
    raw[0x0D] = 0;
    assert!(!Settings::decode(&raw).unwrap().alarm_on_setting_change);
}

#[test]
fn decode_keeps_a_nan_and_validation_refuses_it() {
    let mut raw = sample().encode();
    raw[0x00] = 0x7E00;
    let settings = Settings::decode(&raw).unwrap();
    assert_eq!(settings.regulation_voltage.volts, Half::from_bits(0x7E00));
    assert!(settings.regulation_voltage.volts.is_nan());
    assert_ne!(settings.regulation_voltage, volts(0.0));
    assert_eq!(
        settings.validate(),
        Err(Error::OutOfRange { field: Field::RegulationVoltage, range: Field::RegulationVoltage.range() })
    );
    assert_eq!(settings.encode(), raw);
}

#[test]
fn decode_refuses_a_block_of_another_length() {
    let short = vec![0u16; 56];
    assert_eq!(
        Settings::decode(&short),
        Err(Error::WrongSize { operation: Operation::ReadSettings, expected: 57, found: 56 })
    );
    let long = vec![0u16; 58];
    assert_eq!(
        Settings::decode(&long),
        Err(Error::WrongSize { operation: Operation::ReadSettings, expected: 57, found: 58 })
    );
    assert_eq!(
        Settings::decode(&[]),
        Err(Error::WrongSize { operation: Operation::ReadSettings, expected: 57, found: 0 })
    );
}

#[test]
fn default_is_the_block_of_zeros() {
    assert_eq!(Settings::default(), Settings::decode(&[0u16; 57]).unwrap());
    assert_eq!(Settings::default().encode(), vec![0u16; 57]);
}

#[test]
fn encode_puts_every_field_at_its_offset() {
    let block = sample().encode();
    assert_eq!(block.len(), 57);
    assert_eq!(block[0x00], f16::from_f32(14.4).to_bits());
    assert_eq!(block[0x02], 7200);
    assert_eq!(block[0x08], 28);
    assert_eq!(block[0x0B], 0);
    assert_eq!(block[0x0D], 1);
    assert_eq!(block[0x1E], 80);
    assert_eq!(block[0x1F], 0xFFE2);
    assert_eq!(block[0x27], 10);
    assert_eq!(block[0x34], 1);
    assert_eq!(block[0x35], 15);
    assert_eq!(block[0x38], 0x5100);
    for field in all_fields() {
        assert_eq!(block[field.offset()], sample().register(field));
    }
}

#[test]
fn decode_gives_back_what_encode_was_given() {
    let settings = sample();
    assert_eq!(Settings::decode(&settings.encode()), Ok(settings));
}

#[test]
fn encode_gives_back_what_decode_was_given() {
    let mut raw = vec![0u16; 57];
    for field in all_fields() {
        raw[field.offset()] = match field.encoding() {
            Encoding::Flag => 1,
            Encoding::Byte => 200,
            Encoding::Half => 0x4000 + field.offset() as u16,
            _ => 0xFF00 + field.offset() as u16,
        };
    }
    assert_eq!(Settings::decode(&raw).unwrap().encode(), raw);
}

#[test]
fn every_register_word_survives_each_whole_number_encoding() {
    for raw in 0..=u16::MAX {
        for encoding in [Encoding::Seconds, Encoding::Minutes, Encoding::Days, Encoding::SignedWord] {
            assert_eq!(encoding.encode(encoding.decode(raw)), raw);
        }
        assert_eq!(Encoding::Half.decode(raw), Value::Real(Half::from_bits(raw)));
        assert_eq!(Encoding::Half.encode(Encoding::Half.decode(raw)), raw);
        assert_eq!(Encoding::Byte.encode(Encoding::Byte.decode(raw)), raw & 0xFF);
        assert_eq!(Encoding::Flag.encode(Encoding::Flag.decode(raw)), if raw == 1 { 1 } else { 0 });
    }
}

#[test]
fn encodings_have_their_formulas() {
    assert_eq!(Encoding::Seconds.decode(90), Value::Whole(90));
    assert_eq!(Encoding::Minutes.decode(90), Value::Whole(5400));
    assert_eq!(Encoding::Days.decode(2), Value::Whole(172800));
    assert_eq!(Encoding::Days.decode(65535), Value::Whole(65535 * 86400));
    assert_eq!(Encoding::SignedWord.decode(0xFF00), Value::Whole(-256));
    assert_eq!(Encoding::Byte.decode(0x0102), Value::Whole(2));
    assert_eq!(Encoding::Flag.decode(1), Value::Flag(true));
    assert_eq!(Encoding::Half.decode(0x4C60), Value::Real(Half::from_bits(0x4C60)));
    assert_eq!(Encoding::Minutes.encode(Value::Whole(5459)), 90);
    assert_eq!(Encoding::Days.encode(Value::Whole(172799)), 1);
    assert_eq!(Encoding::Seconds.encode(Value::Whole(-5)), 0);
    assert_eq!(Encoding::Seconds.encode(Value::Whole(70000)), 65535);
    assert_eq!(Encoding::Minutes.encode(Value::Whole(-61)), 0);
    assert_eq!(Encoding::Days.encode(Value::Whole(i64::MAX)), 65535);
    assert_eq!(Encoding::SignedWord.encode(Value::Whole(-256)), 0xFF00);
    assert_eq!(Encoding::SignedWord.encode(Value::Whole(-40000)), 0x8000);
    assert_eq!(Encoding::SignedWord.encode(Value::Whole(40000)), 0x7FFF);
    assert_eq!(Encoding::Byte.encode(Value::Whole(300)), 255);
    assert_eq!(Encoding::Byte.encode(Value::Whole(-1)), 0);
    assert_eq!(Encoding::Flag.encode(Value::Flag(true)), 1);
    assert_eq!(Encoding::Half.encode(Value::Real(Half::from_bits(0x1234))), 0x1234);
    assert_eq!(Encoding::Half.encode(Value::Whole(7)), 0);
    assert_eq!(Encoding::Flag.encode(Value::Whole(1)), 0);
    assert_eq!(Encoding::Seconds.encode(Value::Flag(true)), 0);
}

#[test]
fn time_counts_in_whole_units() {
    assert_eq!(Time::from_seconds(65535).seconds, 65535);
    assert_eq!(Time::from_minutes(65535).seconds, 3_932_100);
    assert_eq!(Time::from_hours(u32::MAX).seconds, 15_461_882_262_000);
    assert_eq!(Time::from_days(65535).seconds, 5_662_224_000);
    assert_eq!(Time { seconds: 119 }.whole_minutes(), 1);
    assert_eq!(Time { seconds: 120 }.whole_minutes(), 2);
    assert_eq!(Time { seconds: 86399 }.whole_days(), 0);
    assert_eq!(Time { seconds: 86400 }.whole_days(), 1);
    assert_eq!(Time { seconds: -86400 }.whole_days(), 0);
    assert_eq!(Time { seconds: i64::MIN }.whole_seconds(), 0);
    assert_eq!(Time { seconds: i64::MAX }.whole_minutes(), 65535);
}

#[test]
fn temperature_limit_stops_at_the_ends_of_a_signed_word() {
    assert_eq!(TemperatureLimit::from_word(-256).degrees_celsius, -256);
    assert_eq!(TemperatureLimit { degrees_celsius: 127 }.to_word(), 127);
    assert_eq!(TemperatureLimit { degrees_celsius: 40000 }.to_word(), 32767);
    assert_eq!(TemperatureLimit { degrees_celsius: -40000 }.to_word(), -32768);
}

#[test]
fn a_sound_configuration_passes() {
    assert_eq!(sample().validate(), Ok(()));
}

#[test]
fn the_block_of_zeros_fails_on_the_bus_address() {
    assert_eq!(
        Settings::default().validate(),
        Err(Error::OutOfRange { field: Field::ModbusId, range: Range::Whole { min: 1, max: 247 } })
    );
}

fn with(field: Field, value: Value) -> Settings {
    let mut s = sample();
    match (field, value) {
        (Field::RegulationVoltage, Value::Real(h)) => s.regulation_voltage.volts = h,
        (Field::FloatVoltage, Value::Real(h)) => s.float_voltage.volts = h,
        (Field::TimeBeforeFloat, Value::Whole(n)) => s.time_before_float.seconds = n,
        (Field::TimeBeforeFloatLowBattery, Value::Whole(n)) => s.time_before_float_low_battery.seconds = n,
        (Field::FloatLowBatteryVoltageTrigger, Value::Real(h)) => s.float_low_battery_voltage_trigger.volts = h,
        (Field::FloatCancelVoltage, Value::Real(h)) => s.float_cancel_voltage.volts = h,
        (Field::ExitFloatTime, Value::Whole(n)) => s.exit_float_time.seconds = n,
        (Field::EqualizeVoltage, Value::Real(h)) => s.equalize_voltage.volts = h,
        (Field::DaysBetweenEqualizeCycles, Value::Whole(n)) => s.days_between_equalize_cycles.seconds = n,
        (Field::EqualizeTimeLimitAboveRegulationVoltage, Value::Whole(n)) => {
            s.equalize_time_limit_above_regulation_voltage.seconds = n
        }
        (Field::EqualizeTimeLimitAtRegulationVoltage, Value::Whole(n)) => {
            s.equalize_time_limit_at_regulation_voltage.seconds = n
        }
        (Field::AlarmOnSettingChange, Value::Flag(b)) => s.alarm_on_setting_change = b,
        (Field::ReferenceChargeVoltageLimit, Value::Real(h)) => s.reference_charge_voltage_limit.volts = h,
        (Field::BatteryChargeCurrentLimit, Value::Real(h)) => s.battery_charge_current_limit.amperes = h,
        (Field::TemperatureCompensationCoefficent, Value::Real(h)) => s.temperature_compensation_coefficent.volts = h,
        (Field::HighVoltageDisconnect, Value::Real(h)) => s.high_voltage_disconnect.volts = h,
        (Field::HighVoltageReconnect, Value::Real(h)) => s.high_voltage_reconnect.volts = h,
        (Field::MaximumChargeVoltageReference, Value::Real(h)) => s.maximum_charge_voltage_reference.volts = h,
        (Field::MaxBatteryTempCompensationLimit, Value::Whole(n)) => {
            s.max_battery_temp_compensation_limit.degrees_celsius = n as i32
        }
        (Field::MinBatteryTempCompensationLimit, Value::Whole(n)) => {
            s.min_battery_temp_compensation_limit.degrees_celsius = n as i32
        }
        (Field::LoadLowVoltageDisconnect, Value::Real(h)) => s.load_low_voltage_disconnect.volts = h,
        (Field::LoadLowVoltageReconnect, Value::Real(h)) => s.load_low_voltage_reconnect.volts = h,
        (Field::LoadHighVoltageDisconnect, Value::Real(h)) => s.load_high_voltage_disconnect.volts = h,
        (Field::LoadHighVoltageReconnect, Value::Real(h)) => s.load_high_voltage_reconnect.volts = h,
        (Field::LvdLoadCurrentCompensation, Value::Real(h)) => s.lvd_load_current_compensation.ohms = h,
        (Field::LvdWarningTimeout, Value::Whole(n)) => s.lvd_warning_timeout.seconds = n,
        (Field::LedGreenToGreenAndYellowLimit, Value::Real(h)) => s.led_green_to_green_and_yellow_limit.volts = h,
        (Field::LedGreenAndYellowToYellowLimit, Value::Real(h)) => s.led_green_and_yellow_to_yellow_limit.volts = h,
        (Field::LedYellowToYellowAndRedLimit, Value::Real(h)) => s.led_yellow_to_yellow_and_red_limit.volts = h,
        (Field::LedYellowAndRedToRedFlashingLimit, Value::Real(h)) => {
            s.led_yellow_and_red_to_red_flashing_limit.volts = h
        }
        (Field::ModbusId, Value::Whole(n)) => s.modbus_id = n as u8,
        (Field::MeterbusId, Value::Whole(n)) => s.meterbus_id = n as u8,
        (Field::MpptFixedVmp, Value::Real(h)) => s.mppt_fixed_vmp.volts = h,
        (Field::MpptFixedVmpPercent, Value::Real(h)) => s.mppt_fixed_vmp_percent.fraction = h,
        (Field::ChargeCurrentLimit, Value::Real(h)) => s.charge_current_limit.amperes = h,
        _ => panic!("a value of another kind than the field's"),
    }
    assert_eq!(s.value(field), value);
    s
}

#[test]
fn every_field_passes_at_both_ends_of_its_range_and_fails_one_step_outside() {
    for field in all_fields() {
        let range = field.range();
        match range {
            Range::Real { min, max } => {
                assert_eq!(with(field, Value::Real(min)).validate(), Ok(()), "{}", field.name());
                assert_eq!(with(field, Value::Real(max)).validate(), Ok(()), "{}", field.name());
                let above = Half::from_bits(max.to_bits() + 1);
                let below = Half::from_bits(0x8001);
                let refused = Err(Error::OutOfRange { field, range });
                assert_eq!(with(field, Value::Real(above)).validate(), refused, "{}", field.name());
                assert_eq!(with(field, Value::Real(below)).validate(), refused, "{}", field.name());
                let nan = Half::from_bits(0x7E00);
                assert_eq!(with(field, Value::Real(nan)).validate(), refused, "{}", field.name());
            }
            Range::Whole { min, max } => {
                assert_eq!(with(field, Value::Whole(min)).validate(), Ok(()), "{}", field.name());
                assert_eq!(with(field, Value::Whole(max)).validate(), Ok(()), "{}", field.name());
                let refused = Err(Error::OutOfRange { field, range });
                assert_eq!(with(field, Value::Whole(max + 1)).validate(), refused, "{}", field.name());
                assert_eq!(with(field, Value::Whole(min - 1)).validate(), refused, "{}", field.name());
            }
            Range::Any => {
                assert_eq!(field, Field::AlarmOnSettingChange);
                assert_eq!(with(field, Value::Flag(true)).validate(), Ok(()));
                assert_eq!(with(field, Value::Flag(false)).validate(), Ok(()));
            }
        }
    }
}

#[test]
fn ranges_are_those_of_the_controller() {
    let volts = Range::Real { min: half(0.0), max: half(17.5) };
    let amperes = Range::Real { min: half(0.0), max: half(40.0) };
    let seconds = Range::Whole { min: 0, max: 65535 };
    let degrees = Range::Whole { min: -128, max: 127 };
    assert_eq!(Field::RegulationVoltage.range(), volts);
    assert_eq!(Field::TemperatureCompensationCoefficent.range(), volts);
    assert_eq!(Field::LedYellowAndRedToRedFlashingLimit.range(), volts);
    assert_eq!(Field::BatteryChargeCurrentLimit.range(), amperes);
    assert_eq!(Field::ChargeCurrentLimit.range(), amperes);
    assert_eq!(Field::TimeBeforeFloat.range(), seconds);
    assert_eq!(Field::ExitFloatTime.range(), seconds);
    assert_eq!(Field::LvdWarningTimeout.range(), seconds);
    assert_eq!(Field::DaysBetweenEqualizeCycles.range(), Range::Whole { min: 0, max: 255 * 86400 });
    assert_eq!(Field::MaxBatteryTempCompensationLimit.range(), degrees);
    assert_eq!(Field::MinBatteryTempCompensationLimit.range(), degrees);
    assert_eq!(Field::LvdLoadCurrentCompensation.range(), Range::Real { min: half(0.0), max: half(10000.0) });
    assert_eq!(Field::ModbusId.range(), Range::Whole { min: 1, max: 247 });
    assert_eq!(Field::MeterbusId.range(), Range::Whole { min: 1, max: 15 });
    assert_eq!(Field::MpptFixedVmp.range(), Range::Real { min: half(0.0), max: half(120.0) });
    assert_eq!(Field::MpptFixedVmpPercent.range(), Range::Real { min: half(0.0), max: half(1.0) });
    assert_eq!(Field::AlarmOnSettingChange.range(), Range::Any);
}

#[test]
fn the_first_field_out_of_range_is_the_one_named() {
    let mut s = sample();
    s.charge_current_limit = amperes(41.0);
    s.float_voltage = volts(18.0);
    s.modbus_id = 0;
    assert_eq!(
        s.validate(),
        Err(Error::OutOfRange { field: Field::FloatVoltage, range: Field::FloatVoltage.range() })
    );
    s.float_voltage = volts(13.5);
    assert_eq!(s.validate(), Err(Error::OutOfRange { field: Field::ModbusId, range: Field::ModbusId.range() }));
    s.modbus_id = 247;
    assert_eq!(
        s.validate(),
        Err(Error::OutOfRange { field: Field::ChargeCurrentLimit, range: Field::ChargeCurrentLimit.range() })
    );
}

#[test]
fn validation_leaves_the_configuration_as_it_was() {
    let s = sample();
    let before = s;
    let _ = s.validate();
    assert_eq!(s, before);
}

#[test]
fn minus_zero_and_infinity_at_the_edges() {
    assert_eq!(with(Field::RegulationVoltage, Value::Real(Half::from_bits(0x8000))).validate(), Ok(()));
    let refused = Err(Error::OutOfRange { field: Field::RegulationVoltage, range: Field::RegulationVoltage.range() });
    assert_eq!(with(Field::RegulationVoltage, Value::Real(Half::from_bits(0x7C00))).validate(), refused);
    assert_eq!(with(Field::RegulationVoltage, Value::Real(Half::from_bits(0xFC00))).validate(), refused);
}
