//! The configuration of the controller: reading it from the configuration block,
//! checking it, and turning it back into registers.
//!
//! The controller applies a changed configuration only after it has been reset. While
//! `alarm_on_setting_change` is clear, a controller whose configuration was changed
//! may stay out of operation until that reset.

use vstd::prelude::*;
use crate::binary16::Half;
use crate::prostar_mppt::error::Error;
use crate::prostar_mppt::error::Operation;
use crate::prostar_mppt::field::Field;
use crate::prostar_mppt::field::Value;
use crate::prostar_mppt::field::SETTINGS_LEN;
use crate::prostar_mppt::quantity::ElectricCurrent;
use crate::prostar_mppt::quantity::ElectricPotential;
use crate::prostar_mppt::quantity::ElectricalResistance;
use crate::prostar_mppt::quantity::Ratio;
use crate::prostar_mppt::quantity::TemperatureLimit;
use crate::prostar_mppt::quantity::Time;
use crate::prostar_mppt::register::flag;
use crate::prostar_mppt::register::half_precision;
use crate::prostar_mppt::register::low_byte;
use crate::prostar_mppt::register::signed;
use crate::prostar_mppt::register::signed_value;

verus! {

/// The configuration of the controller.
#[derive(Debug, Clone, Copy, PartialEq, Eq, Structural)]
pub struct Settings {
    pub regulation_voltage: ElectricPotential,
    pub float_voltage: ElectricPotential,
    pub time_before_float: Time,
    pub time_before_float_low_battery: Time,
    pub float_low_battery_voltage_trigger: ElectricPotential,
    pub float_cancel_voltage: ElectricPotential,
    pub exit_float_time: Time,
    pub equalize_voltage: ElectricPotential,
    pub days_between_equalize_cycles: Time,
    pub equalize_time_limit_above_regulation_voltage: Time,
    pub equalize_time_limit_at_regulation_voltage: Time,
    pub alarm_on_setting_change: bool,
    pub reference_charge_voltage_limit: ElectricPotential,
    pub battery_charge_current_limit: ElectricCurrent,
    pub temperature_compensation_coefficent: ElectricPotential,
    pub high_voltage_disconnect: ElectricPotential,
    pub high_voltage_reconnect: ElectricPotential,
    pub maximum_charge_voltage_reference: ElectricPotential,
    pub max_battery_temp_compensation_limit: TemperatureLimit,
    pub min_battery_temp_compensation_limit: TemperatureLimit,
    pub load_low_voltage_disconnect: ElectricPotential,
    pub load_low_voltage_reconnect: ElectricPotential,
    pub load_high_voltage_disconnect: ElectricPotential,
    pub load_high_voltage_reconnect: ElectricPotential,
    pub lvd_load_current_compensation: ElectricalResistance,
    pub lvd_warning_timeout: Time,
    pub led_green_to_green_and_yellow_limit: ElectricPotential,
    pub led_green_and_yellow_to_yellow_limit: ElectricPotential,
    pub led_yellow_to_yellow_and_red_limit: ElectricPotential,
    pub led_yellow_and_red_to_red_flashing_limit: ElectricPotential,
    pub modbus_id: u8,
    pub meterbus_id: u8,
    pub mppt_fixed_vmp: ElectricPotential,
    pub mppt_fixed_vmp_percent: Ratio,
    pub charge_current_limit: ElectricCurrent,
}

impl Settings {
    /// The value of a field, apart from its unit.
    pub open spec fn spec_value(&self, field: Field) -> Value {
        match field {
            Field::RegulationVoltage => Value::Real(self.regulation_voltage.volts),
            Field::FloatVoltage => Value::Real(self.float_voltage.volts),
            Field::TimeBeforeFloat => Value::Whole(self.time_before_float.seconds),
            Field::TimeBeforeFloatLowBattery => Value::Whole(self.time_before_float_low_battery.seconds),
            Field::FloatLowBatteryVoltageTrigger => Value::Real(self.float_low_battery_voltage_trigger.volts),
            Field::FloatCancelVoltage => Value::Real(self.float_cancel_voltage.volts),
            Field::ExitFloatTime => Value::Whole(self.exit_float_time.seconds),
            Field::EqualizeVoltage => Value::Real(self.equalize_voltage.volts),
            Field::DaysBetweenEqualizeCycles => Value::Whole(self.days_between_equalize_cycles.seconds),
            Field::EqualizeTimeLimitAboveRegulationVoltage => Value::Whole(self.equalize_time_limit_above_regulation_voltage.seconds),
            Field::EqualizeTimeLimitAtRegulationVoltage => Value::Whole(self.equalize_time_limit_at_regulation_voltage.seconds),
            Field::AlarmOnSettingChange => Value::Flag(self.alarm_on_setting_change),
            Field::ReferenceChargeVoltageLimit => Value::Real(self.reference_charge_voltage_limit.volts),
            Field::BatteryChargeCurrentLimit => Value::Real(self.battery_charge_current_limit.amperes),
            Field::TemperatureCompensationCoefficent => Value::Real(self.temperature_compensation_coefficent.volts),
            Field::HighVoltageDisconnect => Value::Real(self.high_voltage_disconnect.volts),
            Field::HighVoltageReconnect => Value::Real(self.high_voltage_reconnect.volts),
            Field::MaximumChargeVoltageReference => Value::Real(self.maximum_charge_voltage_reference.volts),
            Field::MaxBatteryTempCompensationLimit => Value::Whole(self.max_battery_temp_compensation_limit.degrees_celsius as i64),
            Field::MinBatteryTempCompensationLimit => Value::Whole(self.min_battery_temp_compensation_limit.degrees_celsius as i64),
            Field::LoadLowVoltageDisconnect => Value::Real(self.load_low_voltage_disconnect.volts),
            Field::LoadLowVoltageReconnect => Value::Real(self.load_low_voltage_reconnect.volts),
            Field::LoadHighVoltageDisconnect => Value::Real(self.load_high_voltage_disconnect.volts),
            Field::LoadHighVoltageReconnect => Value::Real(self.load_high_voltage_reconnect.volts),
            Field::LvdLoadCurrentCompensation => Value::Real(self.lvd_load_current_compensation.ohms),
            Field::LvdWarningTimeout => Value::Whole(self.lvd_warning_timeout.seconds),
            Field::LedGreenToGreenAndYellowLimit => Value::Real(self.led_green_to_green_and_yellow_limit.volts),
            Field::LedGreenAndYellowToYellowLimit => Value::Real(self.led_green_and_yellow_to_yellow_limit.volts),
            Field::LedYellowToYellowAndRedLimit => Value::Real(self.led_yellow_to_yellow_and_red_limit.volts),
            Field::LedYellowAndRedToRedFlashingLimit => Value::Real(self.led_yellow_and_red_to_red_flashing_limit.volts),
            Field::ModbusId => Value::Whole(self.modbus_id as i64),
            Field::MeterbusId => Value::Whole(self.meterbus_id as i64),
            Field::MpptFixedVmp => Value::Real(self.mppt_fixed_vmp.volts),
            Field::MpptFixedVmpPercent => Value::Real(self.mppt_fixed_vmp_percent.fraction),
            Field::ChargeCurrentLimit => Value::Real(self.charge_current_limit.amperes),
        }
    }

    /// The value of a field, apart from its unit.
    #[verifier::when_used_as_spec(spec_value)]
    pub fn value(&self, field: Field) -> (value: Value)
        ensures
            value == self.spec_value(field),
            field.spec_encoding().carries(value),
    {
        match field {
            Field::RegulationVoltage => Value::Real(self.regulation_voltage.volts),
            Field::FloatVoltage => Value::Real(self.float_voltage.volts),
            Field::TimeBeforeFloat => Value::Whole(self.time_before_float.seconds),
            Field::TimeBeforeFloatLowBattery => Value::Whole(self.time_before_float_low_battery.seconds),
            Field::FloatLowBatteryVoltageTrigger => Value::Real(self.float_low_battery_voltage_trigger.volts),
            Field::FloatCancelVoltage => Value::Real(self.float_cancel_voltage.volts),
            Field::ExitFloatTime => Value::Whole(self.exit_float_time.seconds),
            Field::EqualizeVoltage => Value::Real(self.equalize_voltage.volts),
            Field::DaysBetweenEqualizeCycles => Value::Whole(self.days_between_equalize_cycles.seconds),
            Field::EqualizeTimeLimitAboveRegulationVoltage => Value::Whole(self.equalize_time_limit_above_regulation_voltage.seconds),
            Field::EqualizeTimeLimitAtRegulationVoltage => Value::Whole(self.equalize_time_limit_at_regulation_voltage.seconds),
            Field::AlarmOnSettingChange => Value::Flag(self.alarm_on_setting_change),
            Field::ReferenceChargeVoltageLimit => Value::Real(self.reference_charge_voltage_limit.volts),
            Field::BatteryChargeCurrentLimit => Value::Real(self.battery_charge_current_limit.amperes),
            Field::TemperatureCompensationCoefficent => Value::Real(self.temperature_compensation_coefficent.volts),
            Field::HighVoltageDisconnect => Value::Real(self.high_voltage_disconnect.volts),
            Field::HighVoltageReconnect => Value::Real(self.high_voltage_reconnect.volts),
            Field::MaximumChargeVoltageReference => Value::Real(self.maximum_charge_voltage_reference.volts),
            Field::MaxBatteryTempCompensationLimit => Value::Whole(self.max_battery_temp_compensation_limit.degrees_celsius as i64),
            Field::MinBatteryTempCompensationLimit => Value::Whole(self.min_battery_temp_compensation_limit.degrees_celsius as i64),
            Field::LoadLowVoltageDisconnect => Value::Real(self.load_low_voltage_disconnect.volts),
            Field::LoadLowVoltageReconnect => Value::Real(self.load_low_voltage_reconnect.volts),
            Field::LoadHighVoltageDisconnect => Value::Real(self.load_high_voltage_disconnect.volts),
            Field::LoadHighVoltageReconnect => Value::Real(self.load_high_voltage_reconnect.volts),
            Field::LvdLoadCurrentCompensation => Value::Real(self.lvd_load_current_compensation.ohms),
            Field::LvdWarningTimeout => Value::Whole(self.lvd_warning_timeout.seconds),
            Field::LedGreenToGreenAndYellowLimit => Value::Real(self.led_green_to_green_and_yellow_limit.volts),
            Field::LedGreenAndYellowToYellowLimit => Value::Real(self.led_green_and_yellow_to_yellow_limit.volts),
            Field::LedYellowToYellowAndRedLimit => Value::Real(self.led_yellow_to_yellow_and_red_limit.volts),
            Field::LedYellowAndRedToRedFlashingLimit => Value::Real(self.led_yellow_and_red_to_red_flashing_limit.volts),
            Field::ModbusId => Value::Whole(self.modbus_id as i64),
            Field::MeterbusId => Value::Whole(self.meterbus_id as i64),
            Field::MpptFixedVmp => Value::Real(self.mppt_fixed_vmp.volts),
            Field::MpptFixedVmpPercent => Value::Real(self.mppt_fixed_vmp_percent.fraction),
            Field::ChargeCurrentLimit => Value::Real(self.charge_current_limit.amperes),
        }
    }

    /// The register that holds a field of this configuration.
    pub open spec fn spec_register(&self, field: Field) -> u16 {
        field.spec_encoding().spec_encode(self.spec_value(field))
    }

    /// The register that holds a field of this configuration.
    #[verifier::when_used_as_spec(spec_register)]
    pub fn register(&self, field: Field) -> (raw: u16)
        ensures
            raw == self.spec_register(field),
    {
        field.encoding().encode(self.value(field))
    }

    /// The configuration block that holds this configuration, with 0 in the registers
    /// that belong to no field.
    pub open spec fn image(self) -> Seq<u16> {
        Seq::new(
            SETTINGS_LEN as nat,
            |i: int|
                match Field::spec_at(i as usize) {
                    Some(field) => self.spec_register(field),
                    None => 0u16,
                },
        )
    }

    /// The configuration block that holds this configuration.
    pub fn encode(&self) -> (block: Vec<u16>)
        ensures
            block@ == self.image(),
    {
        let mut block: Vec<u16> = Vec::new();
        let mut offset: usize = 0;
        while offset < SETTINGS_LEN
            invariant
                offset <= SETTINGS_LEN,
                block@.len() == offset,
                forall|i: int| 0 <= i < offset ==> block@[i] == self.image()[i],
            decreases SETTINGS_LEN - offset,
        {
            let raw: u16 = match Field::at(offset) {
                Some(field) => self.register(field),
                None => 0,
            };
            block.push(raw);
            offset += 1;
        }
        block
    }

    /// The configuration that a configuration block holds.
    pub open spec fn decoded(raw: Seq<u16>) -> Settings
        recommends
            raw.len() == SETTINGS_LEN,
    {
        Settings {
            regulation_voltage: ElectricPotential { volts: Half { bits: raw[0x00] } },
            float_voltage: ElectricPotential { volts: Half { bits: raw[0x01] } },
            time_before_float: Time { seconds: raw[0x02] as i64 },
            time_before_float_low_battery: Time { seconds: raw[0x03] as i64 },
            float_low_battery_voltage_trigger: ElectricPotential { volts: Half { bits: raw[0x04] } },
            float_cancel_voltage: ElectricPotential { volts: Half { bits: raw[0x05] } },
            exit_float_time: Time { seconds: raw[0x06] as i64 },
            equalize_voltage: ElectricPotential { volts: Half { bits: raw[0x07] } },
            days_between_equalize_cycles: Time { seconds: (raw[0x08] * 86400) as i64 },
            equalize_time_limit_above_regulation_voltage: Time { seconds: raw[0x09] as i64 },
            equalize_time_limit_at_regulation_voltage: Time { seconds: raw[0x0A] as i64 },
            alarm_on_setting_change: raw[0x0D] == 1,
            reference_charge_voltage_limit: ElectricPotential { volts: Half { bits: raw[0x10] } },
            battery_charge_current_limit: ElectricCurrent { amperes: Half { bits: raw[0x13] } },
            temperature_compensation_coefficent: ElectricPotential { volts: Half { bits: raw[0x1A] } },
            high_voltage_disconnect: ElectricPotential { volts: Half { bits: raw[0x1B] } },
            high_voltage_reconnect: ElectricPotential { volts: Half { bits: raw[0x1C] } },
            maximum_charge_voltage_reference: ElectricPotential { volts: Half { bits: raw[0x1D] } },
            max_battery_temp_compensation_limit: TemperatureLimit { degrees_celsius: signed_value(raw[0x1E]) as i32 },
            min_battery_temp_compensation_limit: TemperatureLimit { degrees_celsius: signed_value(raw[0x1F]) as i32 },
            load_low_voltage_disconnect: ElectricPotential { volts: Half { bits: raw[0x22] } },
            load_low_voltage_reconnect: ElectricPotential { volts: Half { bits: raw[0x23] } },
            load_high_voltage_disconnect: ElectricPotential { volts: Half { bits: raw[0x24] } },
            load_high_voltage_reconnect: ElectricPotential { volts: Half { bits: raw[0x25] } },
            lvd_load_current_compensation: ElectricalResistance { ohms: Half { bits: raw[0x26] } },
            lvd_warning_timeout: Time { seconds: (raw[0x27] * 60) as i64 },
            led_green_to_green_and_yellow_limit: ElectricPotential { volts: Half { bits: raw[0x30] } },
            led_green_and_yellow_to_yellow_limit: ElectricPotential { volts: Half { bits: raw[0x31] } },
            led_yellow_to_yellow_and_red_limit: ElectricPotential { volts: Half { bits: raw[0x32] } },
            led_yellow_and_red_to_red_flashing_limit: ElectricPotential { volts: Half { bits: raw[0x33] } },
            modbus_id: (raw[0x34] % 256) as u8,
            meterbus_id: (raw[0x35] % 256) as u8,
            mppt_fixed_vmp: ElectricPotential { volts: Half { bits: raw[0x36] } },
            mppt_fixed_vmp_percent: Ratio { fraction: Half { bits: raw[0x37] } },
            charge_current_limit: ElectricCurrent { amperes: Half { bits: raw[0x38] } },
        }
    }

    /// Reads a configuration from the registers of the configuration block.
    ///
    /// A block of any other length than that of the configuration block is refused
    /// whole.
    pub fn decode(raw: &[u16]) -> (r: Result<Settings, Error>)
        ensures
            raw@.len() == SETTINGS_LEN ==> r == Ok::<Settings, Error>(Settings::decoded(raw@)),
            raw@.len() != SETTINGS_LEN ==> r == Err::<Settings, Error>(
                Error::WrongSize {
                    operation: Operation::ReadSettings,
                    expected: SETTINGS_LEN,
                    found: raw@.len() as usize,
                },
            ),
    {
        if raw.len() != SETTINGS_LEN {
            Err(
                Error::WrongSize {
                    operation: Operation::ReadSettings,
                    expected: SETTINGS_LEN,
                    found: raw.len(),
                },
            )
        } else {
            Ok(
                Settings {
                regulation_voltage: ElectricPotential { volts: half_precision(raw[0x00]) },
                float_voltage: ElectricPotential { volts: half_precision(raw[0x01]) },
                time_before_float: Time::from_seconds(raw[0x02]),
                time_before_float_low_battery: Time::from_seconds(raw[0x03]),
                float_low_battery_voltage_trigger: ElectricPotential { volts: half_precision(raw[0x04]) },
                float_cancel_voltage: ElectricPotential { volts: half_precision(raw[0x05]) },
                exit_float_time: Time::from_seconds(raw[0x06]),
                equalize_voltage: ElectricPotential { volts: half_precision(raw[0x07]) },
                days_between_equalize_cycles: Time::from_days(raw[0x08]),
                equalize_time_limit_above_regulation_voltage: Time::from_seconds(raw[0x09]),
                equalize_time_limit_at_regulation_voltage: Time::from_seconds(raw[0x0A]),
                alarm_on_setting_change: flag(raw[0x0D]),
                reference_charge_voltage_limit: ElectricPotential { volts: half_precision(raw[0x10]) },
                battery_charge_current_limit: ElectricCurrent { amperes: half_precision(raw[0x13]) },
                temperature_compensation_coefficent: ElectricPotential { volts: half_precision(raw[0x1A]) },
                high_voltage_disconnect: ElectricPotential { volts: half_precision(raw[0x1B]) },
                high_voltage_reconnect: ElectricPotential { volts: half_precision(raw[0x1C]) },
                maximum_charge_voltage_reference: ElectricPotential { volts: half_precision(raw[0x1D]) },
                max_battery_temp_compensation_limit: TemperatureLimit::from_word(signed(raw[0x1E])),
                min_battery_temp_compensation_limit: TemperatureLimit::from_word(signed(raw[0x1F])),
                load_low_voltage_disconnect: ElectricPotential { volts: half_precision(raw[0x22]) },
                load_low_voltage_reconnect: ElectricPotential { volts: half_precision(raw[0x23]) },
                load_high_voltage_disconnect: ElectricPotential { volts: half_precision(raw[0x24]) },
                load_high_voltage_reconnect: ElectricPotential { volts: half_precision(raw[0x25]) },
                lvd_load_current_compensation: ElectricalResistance { ohms: half_precision(raw[0x26]) },
                lvd_warning_timeout: Time::from_minutes(raw[0x27]),
                led_green_to_green_and_yellow_limit: ElectricPotential { volts: half_precision(raw[0x30]) },
                led_green_and_yellow_to_yellow_limit: ElectricPotential { volts: half_precision(raw[0x31]) },
                led_yellow_to_yellow_and_red_limit: ElectricPotential { volts: half_precision(raw[0x32]) },
                led_yellow_and_red_to_red_flashing_limit: ElectricPotential { volts: half_precision(raw[0x33]) },
                modbus_id: low_byte(raw[0x34]),
                meterbus_id: low_byte(raw[0x35]),
                mppt_fixed_vmp: ElectricPotential { volts: half_precision(raw[0x36]) },
                mppt_fixed_vmp_percent: Ratio { fraction: half_precision(raw[0x37]) },
                charge_current_limit: ElectricCurrent { amperes: half_precision(raw[0x38]) },
                },
            )
        }
    }

    /// Whether a field of this configuration has a value that the field may take.
    pub open spec fn permits(self, field: Field) -> bool {
        field.spec_range().spec_admits(self.spec_value(field))
    }

    /// Whether every field has a value that it may take.
    pub open spec fn valid(self) -> bool {
        forall|field: Field| self.permits(field)
    }

    /// The first field, in the order of the configuration block and not before the
    /// place `from`, whose value it may not take.
    pub open spec fn first_refused(self, from: nat) -> Option<Field>
        decreases SETTINGS_LEN - from,
    {
        if from >= SETTINGS_LEN {
            None
        } else {
            match Field::spec_at(from as usize) {
                Some(field) if !self.permits(field) => Some(field),
                _ => self.first_refused(from + 1),
            }
        }
    }

    /// Checks every field against its range.
    ///
    /// The configuration passes when every field has a value that it may take.
    /// Otherwise the error names the first field, in the order of the configuration
    /// block, that has not, together with the range that the field requires.
    pub fn validate(&self) -> (r: Result<(), Error>)
        ensures
            r is Ok <==> self.valid(),
            r == match self.first_refused(0) {
                None => Ok::<(), Error>(()),
                Some(field) => Err::<(), Error>(
                    Error::OutOfRange { field, range: field.spec_range() },
                ),
            },
    {
        let mut offset: usize = 0;
        while offset < SETTINGS_LEN
            invariant
                offset <= SETTINGS_LEN,
                self.first_refused(0) == self.first_refused(offset as nat),
            decreases SETTINGS_LEN - offset,
        {
            match Field::at(offset) {
                Some(field) => {
                    let range = field.range();
                    if !range.admits(self.value(field)) {
                        return Err(Error::OutOfRange { field, range });
                    }
                },
                None => {},
            }
            offset += 1;
        }
        proof {
            self.lemma_first_refused(0);
        }
        Ok(())
    }

    /// What `first_refused` finds: a field that is refused, with every field between
    /// `from` and it permitted; or nothing, when every field from `from` on is
    /// permitted.
    pub proof fn lemma_first_refused(self, from: nat)
        ensures
            match self.first_refused(from) {
                Some(field) => {
                    &&& from <= field.spec_offset()
                    &&& !self.permits(field)
                    &&& forall|other: Field|
                        from <= other.spec_offset() < field.spec_offset() ==> self.permits(other)
                },
                None => forall|other: Field| from <= other.spec_offset() ==> self.permits(other),
            },
            from == 0 ==> (self.first_refused(from) is None <==> self.valid()),
        decreases SETTINGS_LEN - from,
    {
        if from < SETTINGS_LEN {
            self.lemma_first_refused(from + 1);
            Field::lemma_at(from as usize);
            assert forall|other: Field| other.spec_offset() == from implies Field::spec_at(
                from as usize,
            ) == Some(other) by {
                other.lemma_one_register_each(other);
            }
        } else {
            assert forall|other: Field| from <= other.spec_offset() implies self.permits(
                other,
            ) by {
                other.lemma_one_register_each(other);
            }
        }
        if from == 0 {
            assert forall|other: Field| 0 <= other.spec_offset() by {}
        }
    }

    /// The bounds of validation: with every other field in order, a configuration
    /// passes when `field` stands at either end of its range, and fails, with `field`
    /// named, when `field` stands one step outside either end.
    pub proof fn lemma_validation_boundary(self, field: Field)
        requires
            forall|other: Field| other != field ==> self.permits(other),
        ensures
            self.spec_value(field) == field.spec_range().lower() || self.spec_value(field)
                == field.spec_range().upper() ==> self.valid() && self.first_refused(0) is None,
            !(field.spec_range() is Any) && (self.spec_value(field)
                == field.spec_range().upper().successor() || self.spec_value(field)
                == field.spec_range().lower().predecessor()) ==> !self.valid()
                && self.first_refused(0) == Some(field),
    {
        self.lemma_first_refused(0);
        field.lemma_bounds_are_admitted();
        if !(field.spec_range() is Any) {
            field.lemma_outside_is_refused(self.spec_value(field));
        }
        if self.permits(field) {
            assert forall|other: Field| self.permits(other) by {
                if other != field {
                    assert(self.permits(other));
                }
            }
        } else {
            match self.first_refused(0) {
                Some(found) => {
                    if found != field {
                        assert(self.permits(found));
                    }
                },
                None => {
                    assert(self.valid());
                },
            }
        }
    }

    /// Reading a configuration block agrees, field by field, with reading each
    /// register under the encoding of its field.
    pub proof fn lemma_decoded_field(raw: Seq<u16>, field: Field)
        requires
            raw.len() == SETTINGS_LEN,
        ensures
            Settings::decoded(raw).spec_value(field) == field.spec_encoding().spec_decode(
                raw[field.spec_offset() as int],
            ),
    {
        match field {
            Field::RegulationVoltage => {},
            Field::FloatVoltage => {},
            Field::TimeBeforeFloat => {},
            Field::TimeBeforeFloatLowBattery => {},
            Field::FloatLowBatteryVoltageTrigger => {},
            Field::FloatCancelVoltage => {},
            Field::ExitFloatTime => {},
            Field::EqualizeVoltage => {},
            Field::DaysBetweenEqualizeCycles => {},
            Field::EqualizeTimeLimitAboveRegulationVoltage => {},
            Field::EqualizeTimeLimitAtRegulationVoltage => {},
            Field::AlarmOnSettingChange => {},
            Field::ReferenceChargeVoltageLimit => {},
            Field::BatteryChargeCurrentLimit => {},
            Field::TemperatureCompensationCoefficent => {},
            Field::HighVoltageDisconnect => {},
            Field::HighVoltageReconnect => {},
            Field::MaximumChargeVoltageReference => {},
            Field::MaxBatteryTempCompensationLimit => {},
            Field::MinBatteryTempCompensationLimit => {},
            Field::LoadLowVoltageDisconnect => {},
            Field::LoadLowVoltageReconnect => {},
            Field::LoadHighVoltageDisconnect => {},
            Field::LoadHighVoltageReconnect => {},
            Field::LvdLoadCurrentCompensation => {},
            Field::LvdWarningTimeout => {},
            Field::LedGreenToGreenAndYellowLimit => {},
            Field::LedGreenAndYellowToYellowLimit => {},
            Field::LedYellowToYellowAndRedLimit => {},
            Field::LedYellowAndRedToRedFlashingLimit => {},
            Field::ModbusId => {},
            Field::MeterbusId => {},
            Field::MpptFixedVmp => {},
            Field::MpptFixedVmpPercent => {},
            Field::ChargeCurrentLimit => {},
        }
    }

    /// A configuration whose every value a register can hold as it is comes back
    /// unchanged from the configuration block that holds it.
    pub proof fn lemma_decode_image(self)
        requires
            forall|field: Field| field.spec_encoding().exact(self.spec_value(field)),
        ensures
            Settings::decoded(self.image()) == self,
    {
        let back = Settings::decoded(self.image());
        assert forall|field: Field| back.spec_value(field) == self.spec_value(field) by {
            Settings::lemma_decoded_field(self.image(), field);
            field.lemma_one_register_each(field);
            field.spec_encoding().lemma_decode_encode(self.spec_value(field));
        }
        Settings::lemma_equal_by_values(back, self);
    }

    /// Two configurations with the same value in every field are the same.
    pub proof fn lemma_equal_by_values(a: Settings, b: Settings)
        requires
            forall|field: Field| a.spec_value(field) == b.spec_value(field),
        ensures
            a == b,
    {
        assert(a.spec_value(Field::RegulationVoltage) == b.spec_value(Field::RegulationVoltage));
        assert(a.spec_value(Field::FloatVoltage) == b.spec_value(Field::FloatVoltage));
        assert(a.spec_value(Field::TimeBeforeFloat) == b.spec_value(Field::TimeBeforeFloat));
        assert(a.spec_value(Field::TimeBeforeFloatLowBattery) == b.spec_value(Field::TimeBeforeFloatLowBattery));
        assert(a.spec_value(Field::FloatLowBatteryVoltageTrigger) == b.spec_value(Field::FloatLowBatteryVoltageTrigger));
        assert(a.spec_value(Field::FloatCancelVoltage) == b.spec_value(Field::FloatCancelVoltage));
        assert(a.spec_value(Field::ExitFloatTime) == b.spec_value(Field::ExitFloatTime));
        assert(a.spec_value(Field::EqualizeVoltage) == b.spec_value(Field::EqualizeVoltage));
        assert(a.spec_value(Field::DaysBetweenEqualizeCycles) == b.spec_value(Field::DaysBetweenEqualizeCycles));
        assert(a.spec_value(Field::EqualizeTimeLimitAboveRegulationVoltage) == b.spec_value(Field::EqualizeTimeLimitAboveRegulationVoltage));
        assert(a.spec_value(Field::EqualizeTimeLimitAtRegulationVoltage) == b.spec_value(Field::EqualizeTimeLimitAtRegulationVoltage));
        assert(a.spec_value(Field::AlarmOnSettingChange) == b.spec_value(Field::AlarmOnSettingChange));
        assert(a.spec_value(Field::ReferenceChargeVoltageLimit) == b.spec_value(Field::ReferenceChargeVoltageLimit));
        assert(a.spec_value(Field::BatteryChargeCurrentLimit) == b.spec_value(Field::BatteryChargeCurrentLimit));
        assert(a.spec_value(Field::TemperatureCompensationCoefficent) == b.spec_value(Field::TemperatureCompensationCoefficent));
        assert(a.spec_value(Field::HighVoltageDisconnect) == b.spec_value(Field::HighVoltageDisconnect));
        assert(a.spec_value(Field::HighVoltageReconnect) == b.spec_value(Field::HighVoltageReconnect));
        assert(a.spec_value(Field::MaximumChargeVoltageReference) == b.spec_value(Field::MaximumChargeVoltageReference));
        assert(a.spec_value(Field::MaxBatteryTempCompensationLimit) == b.spec_value(Field::MaxBatteryTempCompensationLimit));
        assert(a.spec_value(Field::MinBatteryTempCompensationLimit) == b.spec_value(Field::MinBatteryTempCompensationLimit));
        assert(a.spec_value(Field::LoadLowVoltageDisconnect) == b.spec_value(Field::LoadLowVoltageDisconnect));
        assert(a.spec_value(Field::LoadLowVoltageReconnect) == b.spec_value(Field::LoadLowVoltageReconnect));
        assert(a.spec_value(Field::LoadHighVoltageDisconnect) == b.spec_value(Field::LoadHighVoltageDisconnect));
        assert(a.spec_value(Field::LoadHighVoltageReconnect) == b.spec_value(Field::LoadHighVoltageReconnect));
        assert(a.spec_value(Field::LvdLoadCurrentCompensation) == b.spec_value(Field::LvdLoadCurrentCompensation));
        assert(a.spec_value(Field::LvdWarningTimeout) == b.spec_value(Field::LvdWarningTimeout));
        assert(a.spec_value(Field::LedGreenToGreenAndYellowLimit) == b.spec_value(Field::LedGreenToGreenAndYellowLimit));
        assert(a.spec_value(Field::LedGreenAndYellowToYellowLimit) == b.spec_value(Field::LedGreenAndYellowToYellowLimit));
        assert(a.spec_value(Field::LedYellowToYellowAndRedLimit) == b.spec_value(Field::LedYellowToYellowAndRedLimit));
        assert(a.spec_value(Field::LedYellowAndRedToRedFlashingLimit) == b.spec_value(Field::LedYellowAndRedToRedFlashingLimit));
        assert(a.spec_value(Field::ModbusId) == b.spec_value(Field::ModbusId));
        assert(a.spec_value(Field::MeterbusId) == b.spec_value(Field::MeterbusId));
        assert(a.spec_value(Field::MpptFixedVmp) == b.spec_value(Field::MpptFixedVmp));
        assert(a.spec_value(Field::MpptFixedVmpPercent) == b.spec_value(Field::MpptFixedVmpPercent));
        assert(a.spec_value(Field::ChargeCurrentLimit) == b.spec_value(Field::ChargeCurrentLimit));
    }
}

impl Default for Settings {
    /// The configuration that a configuration block of zeros holds.
    fn default() -> (settings: Settings)
        ensures
            settings == Settings::decoded(Seq::new(SETTINGS_LEN as nat, |i: int| 0u16)),
    {
        Settings {
            regulation_voltage: ElectricPotential { volts: Half::zero() },
            float_voltage: ElectricPotential { volts: Half::zero() },
            time_before_float: Time { seconds: 0 },
            time_before_float_low_battery: Time { seconds: 0 },
            float_low_battery_voltage_trigger: ElectricPotential { volts: Half::zero() },
            float_cancel_voltage: ElectricPotential { volts: Half::zero() },
            exit_float_time: Time { seconds: 0 },
            equalize_voltage: ElectricPotential { volts: Half::zero() },
            days_between_equalize_cycles: Time { seconds: 0 },
            equalize_time_limit_above_regulation_voltage: Time { seconds: 0 },
            equalize_time_limit_at_regulation_voltage: Time { seconds: 0 },
            alarm_on_setting_change: false,
            reference_charge_voltage_limit: ElectricPotential { volts: Half::zero() },
            battery_charge_current_limit: ElectricCurrent { amperes: Half::zero() },
            temperature_compensation_coefficent: ElectricPotential { volts: Half::zero() },
            high_voltage_disconnect: ElectricPotential { volts: Half::zero() },
            high_voltage_reconnect: ElectricPotential { volts: Half::zero() },
            maximum_charge_voltage_reference: ElectricPotential { volts: Half::zero() },
            max_battery_temp_compensation_limit: TemperatureLimit { degrees_celsius: 0 },
            min_battery_temp_compensation_limit: TemperatureLimit { degrees_celsius: 0 },
            load_low_voltage_disconnect: ElectricPotential { volts: Half::zero() },
            load_low_voltage_reconnect: ElectricPotential { volts: Half::zero() },
            load_high_voltage_disconnect: ElectricPotential { volts: Half::zero() },
            load_high_voltage_reconnect: ElectricPotential { volts: Half::zero() },
            lvd_load_current_compensation: ElectricalResistance { ohms: Half::zero() },
            lvd_warning_timeout: Time { seconds: 0 },
            led_green_to_green_and_yellow_limit: ElectricPotential { volts: Half::zero() },
            led_green_and_yellow_to_yellow_limit: ElectricPotential { volts: Half::zero() },
            led_yellow_to_yellow_and_red_limit: ElectricPotential { volts: Half::zero() },
            led_yellow_and_red_to_red_flashing_limit: ElectricPotential { volts: Half::zero() },
            modbus_id: 0,
            meterbus_id: 0,
            mppt_fixed_vmp: ElectricPotential { volts: Half::zero() },
            mppt_fixed_vmp_percent: Ratio { fraction: Half::zero() },
            charge_current_limit: ElectricCurrent { amperes: Half::zero() },
        }
    }
}

} // verus!
