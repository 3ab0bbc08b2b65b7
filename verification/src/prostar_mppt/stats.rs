//! The telemetry of the controller: one reading of the telemetry block, turned into
//! typed values.

use vstd::prelude::*;
use crate::binary16::Half;
use crate::prostar_mppt::error::Error;
use crate::prostar_mppt::error::Operation;
use crate::prostar_mppt::faults::Alarms;
use crate::prostar_mppt::faults::ArrayFaults;
use crate::prostar_mppt::faults::LoadFaults;
use crate::prostar_mppt::quantity::ChargeTotal;
use crate::prostar_mppt::quantity::ElectricCharge;
use crate::prostar_mppt::quantity::ElectricCurrent;
use crate::prostar_mppt::quantity::ElectricPotential;
use crate::prostar_mppt::quantity::Energy;
use crate::prostar_mppt::quantity::Power;
use crate::prostar_mppt::quantity::Ratio;
use crate::prostar_mppt::quantity::Temperature;
use crate::prostar_mppt::quantity::Time;
use crate::prostar_mppt::register::half_precision;
use crate::prostar_mppt::register::pair32;
use crate::prostar_mppt::register::pair_value;
use crate::prostar_mppt::state::ChargeState;
use crate::prostar_mppt::state::LoadState;

verus! {

/// The address of the first register of the telemetry block.
pub const STATS_BASE: u16 = 0x0000;

/// The number of registers in the telemetry block.
pub const STATS_LEN: usize = 81;

/// A moment, in milliseconds since the start of 1970, universal time.
#[derive(Debug, Clone, Copy, PartialEq, Eq, Structural)]
pub struct Timestamp {
    pub unix_milliseconds: i64,
}

/// One reading of the controller's telemetry.
#[derive(Debug, Clone, Copy, PartialEq, Eq, Structural)]
pub struct Stats {
    /// When the reading was taken.
    pub timestamp: Timestamp,
    pub software_version: u16,
    pub battery_voltage_settings_multiplier: u16,
    pub supply_3v3: ElectricPotential,
    pub supply_12v: ElectricPotential,
    pub supply_5v: ElectricPotential,
    pub gate_drive_voltage: ElectricPotential,
    pub battery_terminal_voltage: ElectricPotential,
    pub array_voltage: ElectricPotential,
    pub load_voltage: ElectricPotential,
    pub charge_current: ElectricCurrent,
    pub array_current: ElectricCurrent,
    pub load_current: ElectricCurrent,
    pub battery_current_net: ElectricCurrent,
    pub battery_sense_voltage: ElectricPotential,
    pub meterbus_voltage: ElectricPotential,
    pub heatsink_temperature: Temperature,
    pub battery_temperature: Temperature,
    pub ambient_temperature: Temperature,
    pub rts_temperature: Option<Temperature>,
    pub u_inductor_temperature: Temperature,
    pub v_inductor_temperature: Temperature,
    pub w_inductor_temperature: Temperature,
    pub charge_state: ChargeState,
    pub array_faults: ArrayFaults,
    pub battery_voltage_slow: ElectricPotential,
    pub target_voltage: ElectricPotential,
    pub ah_charge_resettable: ChargeTotal,
    pub ah_charge_total: ChargeTotal,
    pub kwh_charge_resettable: Energy,
    pub kwh_charge_total: Energy,
    pub load_state: LoadState,
    pub load_faults: LoadFaults,
    pub lvd_setpoint: ElectricPotential,
    pub ah_load_resettable: ChargeTotal,
    pub ah_load_total: ChargeTotal,
    pub hourmeter: Time,
    pub alarms: Alarms,
    pub array_power: Power,
    pub array_vmp: ElectricPotential,
    pub array_max_power_sweep: Power,
    pub array_voc: ElectricPotential,
    pub battery_v_min_daily: ElectricPotential,
    pub battery_v_max_daily: ElectricPotential,
    pub ah_charge_daily: ElectricCharge,
    pub ah_load_daily: ElectricCharge,
    pub array_faults_daily: ArrayFaults,
    pub load_faults_daily: LoadFaults,
    pub alarms_daily: Alarms,
    pub array_voltage_max_daily: ElectricPotential,
    pub array_voltage_fixed: ElectricPotential,
    pub array_voc_percent_fixed: Ratio,
}

/// What the register of the remote temperature sensor says: a temperature, or, where
/// it holds a NaN, that no sensor is attached.
pub open spec fn sensed(raw: u16) -> Option<Temperature> {
    if (Half { bits: raw }).nan() {
        None
    } else {
        Some(Temperature { degrees_celsius: Half { bits: raw } })
    }
}

/// Reads the register of the remote temperature sensor.
pub fn sensor_temperature(raw: u16) -> (reading: Option<Temperature>)
    ensures
        reading == sensed(raw),
{
    let value = Half::from_bits(raw);
    if value.is_nan() {
        None
    } else {
        Some(Temperature { degrees_celsius: value })
    }
}

impl Stats {
    /// The reading that a telemetry block holds.
    pub open spec fn decoded(raw: Seq<u16>, timestamp: Timestamp) -> Stats
        recommends
            raw.len() == STATS_LEN,
    {
        Stats {
            timestamp,
            software_version: raw[0x00],
            battery_voltage_settings_multiplier: raw[0x01],
            supply_3v3: ElectricPotential { volts: Half { bits: raw[0x04] } },
            supply_12v: ElectricPotential { volts: Half { bits: raw[0x05] } },
            supply_5v: ElectricPotential { volts: Half { bits: raw[0x06] } },
            gate_drive_voltage: ElectricPotential { volts: Half { bits: raw[0x07] } },
            battery_terminal_voltage: ElectricPotential { volts: Half { bits: raw[0x12] } },
            array_voltage: ElectricPotential { volts: Half { bits: raw[0x13] } },
            load_voltage: ElectricPotential { volts: Half { bits: raw[0x14] } },
            charge_current: ElectricCurrent { amperes: Half { bits: raw[0x10] } },
            array_current: ElectricCurrent { amperes: Half { bits: raw[0x11] } },
            load_current: ElectricCurrent { amperes: Half { bits: raw[0x16] } },
            battery_current_net: ElectricCurrent { amperes: Half { bits: raw[0x15] } },
            battery_sense_voltage: ElectricPotential { volts: Half { bits: raw[0x17] } },
            meterbus_voltage: ElectricPotential { volts: Half { bits: raw[0x08] } },
            heatsink_temperature: Temperature { degrees_celsius: Half { bits: raw[0x1A] } },
            battery_temperature: Temperature { degrees_celsius: Half { bits: raw[0x1B] } },
            ambient_temperature: Temperature { degrees_celsius: Half { bits: raw[0x1C] } },
            rts_temperature: sensed(raw[0x1D]),
            u_inductor_temperature: Temperature { degrees_celsius: Half { bits: raw[0x1E] } },
            v_inductor_temperature: Temperature { degrees_celsius: Half { bits: raw[0x1F] } },
            w_inductor_temperature: Temperature { degrees_celsius: Half { bits: raw[0x20] } },
            charge_state: ChargeState::of_code(raw[0x21]),
            array_faults: ArrayFaults::holding(raw[0x22]),
            battery_voltage_slow: ElectricPotential { volts: Half { bits: raw[0x23] } },
            target_voltage: ElectricPotential { volts: Half { bits: raw[0x24] } },
            ah_charge_resettable: ChargeTotal { tenths_of_ampere_hour: pair_value(raw[0x26], raw[0x27]) as u32 },
            ah_charge_total: ChargeTotal { tenths_of_ampere_hour: pair_value(raw[0x28], raw[0x29]) as u32 },
            kwh_charge_resettable: Energy { kilowatt_hours: Half { bits: raw[0x2A] } },
            kwh_charge_total: Energy { kilowatt_hours: Half { bits: raw[0x2B] } },
            load_state: LoadState::of_code(raw[0x2E]),
            load_faults: LoadFaults::holding(raw[0x2F]),
            lvd_setpoint: ElectricPotential { volts: Half { bits: raw[0x30] } },
            ah_load_resettable: ChargeTotal { tenths_of_ampere_hour: pair_value(raw[0x32], raw[0x33]) as u32 },
            ah_load_total: ChargeTotal { tenths_of_ampere_hour: pair_value(raw[0x34], raw[0x35]) as u32 },
            hourmeter: Time { seconds: (pair_value(raw[0x36], raw[0x37]) * 3600) as i64 },
            alarms: Alarms::holding(pair_value(raw[0x38], raw[0x39]) as u32),
            array_power: Power { watts: Half { bits: raw[0x3C] } },
            array_vmp: ElectricPotential { volts: Half { bits: raw[0x3D] } },
            array_max_power_sweep: Power { watts: Half { bits: raw[0x3E] } },
            array_voc: ElectricPotential { volts: Half { bits: raw[0x3F] } },
            battery_v_min_daily: ElectricPotential { volts: Half { bits: raw[0x41] } },
            battery_v_max_daily: ElectricPotential { volts: Half { bits: raw[0x42] } },
            ah_charge_daily: ElectricCharge { ampere_hours: Half { bits: raw[0x43] } },
            ah_load_daily: ElectricCharge { ampere_hours: Half { bits: raw[0x44] } },
            array_faults_daily: ArrayFaults::holding(raw[0x45]),
            load_faults_daily: LoadFaults::holding(raw[0x46]),
            alarms_daily: Alarms::holding(pair_value(raw[0x47], raw[0x48]) as u32),
            array_voltage_max_daily: ElectricPotential { volts: Half { bits: raw[0x4C] } },
            array_voltage_fixed: ElectricPotential { volts: Half { bits: raw[0x4F] } },
            array_voc_percent_fixed: Ratio { fraction: Half { bits: raw[0x50] } },
        }
    }

    /// Turns the registers of the telemetry block into a reading taken at `timestamp`.
    ///
    /// A block of any other length than that of the telemetry block is refused whole.
    pub fn decode(raw: &[u16], timestamp: Timestamp) -> (r: Result<Stats, Error>)
        ensures
            raw@.len() == STATS_LEN ==> r == Ok::<Stats, Error>(Stats::decoded(raw@, timestamp)),
            raw@.len() != STATS_LEN ==> r == Err::<Stats, Error>(
                Error::WrongSize {
                    operation: Operation::ReadStats,
                    expected: STATS_LEN,
                    found: raw@.len() as usize,
                },
            ),
    {
        if raw.len() != STATS_LEN {
            Err(
                Error::WrongSize {
                    operation: Operation::ReadStats,
                    expected: STATS_LEN,
                    found: raw.len(),
                },
            )
        } else {
            Ok(Stats::read_block(raw, timestamp))
        }
    }

    fn read_block(raw: &[u16], timestamp: Timestamp) -> (stats: Stats)
        requires
            raw@.len() == STATS_LEN,
        ensures
            stats == Stats::decoded(raw@, timestamp),
    {
        Stats {
            timestamp,
                software_version: raw[0x00],
                battery_voltage_settings_multiplier: raw[0x01],
                supply_3v3: ElectricPotential { volts: half_precision(raw[0x04]) },
                supply_12v: ElectricPotential { volts: half_precision(raw[0x05]) },
                supply_5v: ElectricPotential { volts: half_precision(raw[0x06]) },
                gate_drive_voltage: ElectricPotential { volts: half_precision(raw[0x07]) },
                battery_terminal_voltage: ElectricPotential { volts: half_precision(raw[0x12]) },
                array_voltage: ElectricPotential { volts: half_precision(raw[0x13]) },
                load_voltage: ElectricPotential { volts: half_precision(raw[0x14]) },
                charge_current: ElectricCurrent { amperes: half_precision(raw[0x10]) },
                array_current: ElectricCurrent { amperes: half_precision(raw[0x11]) },
                load_current: ElectricCurrent { amperes: half_precision(raw[0x16]) },
                battery_current_net: ElectricCurrent { amperes: half_precision(raw[0x15]) },
                battery_sense_voltage: ElectricPotential { volts: half_precision(raw[0x17]) },
                meterbus_voltage: ElectricPotential { volts: half_precision(raw[0x08]) },
                heatsink_temperature: Temperature { degrees_celsius: half_precision(raw[0x1A]) },
                battery_temperature: Temperature { degrees_celsius: half_precision(raw[0x1B]) },
                ambient_temperature: Temperature { degrees_celsius: half_precision(raw[0x1C]) },
                rts_temperature: sensor_temperature(raw[0x1D]),
                u_inductor_temperature: Temperature { degrees_celsius: half_precision(raw[0x1E]) },
                v_inductor_temperature: Temperature { degrees_celsius: half_precision(raw[0x1F]) },
                w_inductor_temperature: Temperature { degrees_celsius: half_precision(raw[0x20]) },
                charge_state: ChargeState::from(raw[0x21]),
                array_faults: ArrayFaults::from_bits_truncate(raw[0x22]),
                battery_voltage_slow: ElectricPotential { volts: half_precision(raw[0x23]) },
                target_voltage: ElectricPotential { volts: half_precision(raw[0x24]) },
                ah_charge_resettable: ChargeTotal { tenths_of_ampere_hour: pair32(raw[0x26], raw[0x27]) },
                ah_charge_total: ChargeTotal { tenths_of_ampere_hour: pair32(raw[0x28], raw[0x29]) },
                kwh_charge_resettable: Energy { kilowatt_hours: half_precision(raw[0x2A]) },
                kwh_charge_total: Energy { kilowatt_hours: half_precision(raw[0x2B]) },
                load_state: LoadState::from(raw[0x2E]),
                load_faults: LoadFaults::from_bits_truncate(raw[0x2F]),
                lvd_setpoint: ElectricPotential { volts: half_precision(raw[0x30]) },
                ah_load_resettable: ChargeTotal { tenths_of_ampere_hour: pair32(raw[0x32], raw[0x33]) },
                ah_load_total: ChargeTotal { tenths_of_ampere_hour: pair32(raw[0x34], raw[0x35]) },
                hourmeter: Time::from_hours(pair32(raw[0x36], raw[0x37])),
                alarms: Alarms::from_bits_truncate(pair32(raw[0x38], raw[0x39])),
                array_power: Power { watts: half_precision(raw[0x3C]) },
                array_vmp: ElectricPotential { volts: half_precision(raw[0x3D]) },
                array_max_power_sweep: Power { watts: half_precision(raw[0x3E]) },
                array_voc: ElectricPotential { volts: half_precision(raw[0x3F]) },
                battery_v_min_daily: ElectricPotential { volts: half_precision(raw[0x41]) },
                battery_v_max_daily: ElectricPotential { volts: half_precision(raw[0x42]) },
                ah_charge_daily: ElectricCharge { ampere_hours: half_precision(raw[0x43]) },
                ah_load_daily: ElectricCharge { ampere_hours: half_precision(raw[0x44]) },
                array_faults_daily: ArrayFaults::from_bits_truncate(raw[0x45]),
                load_faults_daily: LoadFaults::from_bits_truncate(raw[0x46]),
                alarms_daily: Alarms::from_bits_truncate(pair32(raw[0x47], raw[0x48])),
                array_voltage_max_daily: ElectricPotential { volts: half_precision(raw[0x4C]) },
                array_voltage_fixed: ElectricPotential { volts: half_precision(raw[0x4F]) },
                array_voc_percent_fixed: Ratio { fraction: half_precision(raw[0x50]) },
        }
    }

    /// A reading in which nothing has been measured: what a telemetry block of zeros
    /// holds, but with both states unknown and no remote temperature sensor.
    pub open spec fn blank(timestamp: Timestamp) -> Stats {
        Stats {
            rts_temperature: None,
            charge_state: ChargeState::UnknownState(0),
            load_state: LoadState::Unknown(0),
            ..Stats::decoded(Seq::new(STATS_LEN as nat, |i: int| 0u16), timestamp)
        }
    }

    /// A reading in which nothing has been measured.
    pub fn empty(timestamp: Timestamp) -> (stats: Stats)
        ensures
            stats == Stats::blank(timestamp),
    {
        let zeros: [u16; 81] = [0u16; 81];
        assert(zeros@ =~= Seq::new(STATS_LEN as nat, |i: int| 0u16));
        Stats {
            rts_temperature: None,
            charge_state: ChargeState::default(),
            load_state: LoadState::default(),
            ..Stats::read_block(zeros.as_slice(), timestamp)
        }
    }
}

} // verus!
