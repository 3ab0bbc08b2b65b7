//! Physical quantities, each tagged with the unit in which its number is held.
//!
//! A field of one of these types cannot be confused with a field of another: a
//! voltage is not a current, whatever number it holds. The number is stored exactly
//! as the controller reports it: a half-precision value where the register holds one,
//! an integer where the register holds a count.

use vstd::prelude::*;
use crate::binary16::Half;
use crate::prostar_mppt::register::clamped;
use crate::prostar_mppt::register::clamp_to_word;

verus! {

/// An electric potential, in volts.
#[derive(Clone, Copy, Debug, PartialEq, Eq, Structural)]
pub struct ElectricPotential {
    pub volts: Half,
}

/// An electric current, in amperes.
#[derive(Clone, Copy, Debug, PartialEq, Eq, Structural)]
pub struct ElectricCurrent {
    pub amperes: Half,
}

/// An electric charge, in ampere-hours.
#[derive(Clone, Copy, Debug, PartialEq, Eq, Structural)]
pub struct ElectricCharge {
    pub ampere_hours: Half,
}

/// A running total of electric charge, counted in tenths of an ampere-hour.
#[derive(Clone, Copy, Debug, PartialEq, Eq, Structural)]
pub struct ChargeTotal {
    pub tenths_of_ampere_hour: u32,
}

/// An amount of energy, in kilowatt-hours.
#[derive(Clone, Copy, Debug, PartialEq, Eq, Structural)]
pub struct Energy {
    pub kilowatt_hours: Half,
}

/// A power, in watts.
#[derive(Clone, Copy, Debug, PartialEq, Eq, Structural)]
pub struct Power {
    pub watts: Half,
}

/// An electrical resistance, in ohms.
#[derive(Clone, Copy, Debug, PartialEq, Eq, Structural)]
pub struct ElectricalResistance {
    pub ohms: Half,
}

/// A measured temperature, in degrees Celsius.
#[derive(Clone, Copy, Debug, PartialEq, Eq, Structural)]
pub struct Temperature {
    pub degrees_celsius: Half,
}

/// A temperature threshold, in whole degrees Celsius.
#[derive(Clone, Copy, Debug, PartialEq, Eq, Structural)]
pub struct TemperatureLimit {
    pub degrees_celsius: i32,
}

/// A dimensionless fraction, 1 standing for the whole.
#[derive(Clone, Copy, Debug, PartialEq, Eq, Structural)]
pub struct Ratio {
    pub fraction: Half,
}

/// A span of time, in whole seconds.
#[derive(Clone, Copy, Debug, PartialEq, Eq, Structural)]
pub struct Time {
    pub seconds: i64,
}

/// The seconds in a minute.
pub const SECONDS_PER_MINUTE: i64 = 60;

/// The seconds in an hour.
pub const SECONDS_PER_HOUR: i64 = 3600;

/// The seconds in a day.
pub const SECONDS_PER_DAY: i64 = 86400;

impl Time {
    /// The whole number of `unit`-second periods that fit in the span, as a register
    /// holds it: a negative span counts as none, and the count stops at 65535.
    pub open spec fn periods(self, unit: int) -> int
        recommends
            unit > 0,
    {
        if self.seconds <= 0 {
            0
        } else {
            clamped(self.seconds as int / unit, 0, 65535)
        }
    }

    /// The span of `count` seconds.
    pub fn from_seconds(count: u16) -> (t: Time)
        ensures
            t.seconds == count,
    {
        Time { seconds: count as i64 }
    }

    /// The span of `count` minutes.
    pub fn from_minutes(count: u16) -> (t: Time)
        ensures
            t.seconds == count * 60,
    {
        Time { seconds: (count as i64) * SECONDS_PER_MINUTE }
    }

    /// The span of `count` hours.
    pub fn from_hours(count: u32) -> (t: Time)
        ensures
            t.seconds == count * 3600,
    {
        Time { seconds: (count as i64) * SECONDS_PER_HOUR }
    }

    /// The span of `count` days.
    pub fn from_days(count: u16) -> (t: Time)
        ensures
            t.seconds == count * 86400,
    {
        Time { seconds: (count as i64) * SECONDS_PER_DAY }
    }

    /// The span in whole seconds, as a register holds it.
    pub fn whole_seconds(self) -> (count: u16)
        ensures
            count == self.periods(1),
    {
        clamp_to_word(self.seconds)
    }

    /// The span in whole minutes, as a register holds it.
    pub fn whole_minutes(self) -> (count: u16)
        ensures
            count == self.periods(60),
    {
        if self.seconds <= 0 {
            0
        } else {
            clamp_to_word(self.seconds / SECONDS_PER_MINUTE)
        }
    }

    /// The span in whole days, as a register holds it.
    pub fn whole_days(self) -> (count: u16)
        ensures
            count == self.periods(86400),
    {
        if self.seconds <= 0 {
            0
        } else {
            clamp_to_word(self.seconds / SECONDS_PER_DAY)
        }
    }
}

impl TemperatureLimit {
    /// The threshold moved into the range of a signed register word.
    pub open spec fn word_value(self) -> int {
        clamped(self.degrees_celsius as int, -32768, 32767)
    }

    /// The threshold that a signed register word holds.
    pub fn from_word(value: i16) -> (t: TemperatureLimit)
        ensures
            t.degrees_celsius == value,
    {
        TemperatureLimit { degrees_celsius: value as i32 }
    }

    /// The signed word nearest to the threshold.
    pub fn to_word(self) -> (value: i16)
        ensures
            value == self.word_value(),
    {
        if self.degrees_celsius < -32768 {
            -32768
        } else if self.degrees_celsius > 32767 {
            32767
        } else {
            self.degrees_celsius as i16
        }
    }
}

} // verus!
