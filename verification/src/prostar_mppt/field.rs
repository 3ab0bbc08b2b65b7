//! The fields of the configuration block: where each one lives, how its register is
//! read and written, and which values it may take.
//!
//! The fields are ordered by register address, which is also the order in which they
//! are checked and written.

use vstd::prelude::*;
use vstd::arithmetic::power2::lemma2_to64;
use vstd::arithmetic::power2::pow2;
use crate::binary16::Half;
use crate::prostar_mppt::quantity::Time;
use crate::prostar_mppt::quantity::TemperatureLimit;
use crate::prostar_mppt::register::clamped;
use crate::prostar_mppt::register::flag;
use crate::prostar_mppt::register::flag_word;
use crate::prostar_mppt::register::half_precision;
use crate::prostar_mppt::register::low_byte;
use crate::prostar_mppt::register::signed;
use crate::prostar_mppt::register::signed_value;
use crate::prostar_mppt::register::signed_word;
use crate::prostar_mppt::register::unsigned;

verus! {

/// The address of the first register of the configuration block.
pub const SETTINGS_BASE: u16 = 0xE000;

/// The address of the last register of the configuration block.
pub const SETTINGS_END: u16 = 0xE038;

/// The number of registers in the configuration block.
pub const SETTINGS_LEN: usize = 57;

/// The highest voltage that an ordinary voltage field may take: 17.5 volts.
pub const MAX_VOLTS: u16 = 0x4C60;

/// The highest voltage that the fixed operating point of the array may take: 120 volts.
pub const MAX_FIXED_VOLTS: u16 = 0x5780;

/// The highest current that a current field may take: 40 amperes.
pub const MAX_AMPERES: u16 = 0x5100;

/// The highest resistance that a resistance field may take: 10000 ohms.
pub const MAX_OHMS: u16 = 0x70E2;

/// The highest fraction: 1.
pub const MAX_RATIO: u16 = 0x3C00;

/// The longest time between two equalize cycles, in seconds: 255 days.
pub const MAX_EQUALIZE_INTERVAL: i64 = 22_032_000;

/// A field of the configuration block.
#[derive(Debug, Clone, Copy, PartialEq, Eq, Structural, Hash)]
pub enum Field {
    RegulationVoltage,
    FloatVoltage,
    TimeBeforeFloat,
    TimeBeforeFloatLowBattery,
    FloatLowBatteryVoltageTrigger,
    FloatCancelVoltage,
    ExitFloatTime,
    EqualizeVoltage,
    DaysBetweenEqualizeCycles,
    EqualizeTimeLimitAboveRegulationVoltage,
    EqualizeTimeLimitAtRegulationVoltage,
    AlarmOnSettingChange,
    ReferenceChargeVoltageLimit,
    BatteryChargeCurrentLimit,
    TemperatureCompensationCoefficent,
    HighVoltageDisconnect,
    HighVoltageReconnect,
    MaximumChargeVoltageReference,
    MaxBatteryTempCompensationLimit,
    MinBatteryTempCompensationLimit,
    LoadLowVoltageDisconnect,
    LoadLowVoltageReconnect,
    LoadHighVoltageDisconnect,
    LoadHighVoltageReconnect,
    LvdLoadCurrentCompensation,
    LvdWarningTimeout,
    LedGreenToGreenAndYellowLimit,
    LedGreenAndYellowToYellowLimit,
    LedYellowToYellowAndRedLimit,
    LedYellowAndRedToRedFlashingLimit,
    ModbusId,
    MeterbusId,
    MpptFixedVmp,
    MpptFixedVmpPercent,
    ChargeCurrentLimit,
}

/// How a register carries the value of a field.
#[derive(Debug, Clone, Copy, PartialEq, Eq, Structural, Hash)]
pub enum Encoding {
    /// A half-precision number, or a NaN, by its bit pattern.
    Half,
    /// A span of time, counted in seconds.
    Seconds,
    /// A span of time, counted in minutes.
    Minutes,
    /// A span of time, counted in days.
    Days,
    /// A signed whole number.
    SignedWord,
    /// A flag: 1 for set, anything else for clear.
    Flag,
    /// A whole number in the low byte.
    Byte,
}

/// The value of a field, apart from its unit.
#[derive(Debug, Clone, Copy, PartialEq, Eq, Structural)]
pub enum Value {
    /// A half-precision number.
    Real(Half),
    /// A whole number. A span of time is given in seconds.
    Whole(i64),
    Flag(bool),
}

/// The values that a field may take.
#[allow(inconsistent_fields)]
#[derive(Debug, Clone, Copy, PartialEq, Eq, Structural)]
pub enum Range {
    /// The numbers from `min` to `max`, both included.
    Real { min: Half, max: Half },
    /// The whole numbers from `min` to `max`, both included.
    Whole { min: i64, max: i64 },
    /// Every value.
    Any,
}

impl Value {
    /// The next value up: the next whole number, or the next bit pattern of the same
    /// sign, which encodes the next number further from zero.
    pub open spec fn successor(self) -> Value {
        match self {
            Value::Real(h) => Value::Real(Half { bits: (h.bits + 1) as u16 }),
            Value::Whole(n) => Value::Whole((n + 1) as i64),
            Value::Flag(b) => self,
        }
    }

    /// The next value down: the previous whole number, or, for a number that is not
    /// negative, the previous bit pattern, zero being followed by the smallest
    /// negative number.
    pub open spec fn predecessor(self) -> Value {
        match self {
            Value::Real(h) => Value::Real(
                if h.magnitude() == 0 {
                    Half { bits: 0x8001 }
                } else {
                    Half { bits: (h.bits - 1) as u16 }
                },
            ),
            Value::Whole(n) => Value::Whole((n - 1) as i64),
            Value::Flag(b) => self,
        }
    }
}

impl Range {
    /// The least value of the range. The range of every value has none, and gives a
    /// clear flag.
    pub open spec fn lower(self) -> Value {
        match self {
            Range::Real { min, max } => Value::Real(min),
            Range::Whole { min, max } => Value::Whole(min),
            Range::Any => Value::Flag(false),
        }
    }

    /// The greatest value of the range. The range of every value has none, and gives a
    /// set flag.
    pub open spec fn upper(self) -> Value {
        match self {
            Range::Real { min, max } => Value::Real(max),
            Range::Whole { min, max } => Value::Whole(max),
            Range::Any => Value::Flag(true),
        }
    }

    /// Whether `value` is of the range's kind and lies inside it. A NaN lies in no range.
    pub open spec fn spec_admits(self, value: Value) -> bool {
        match (self, value) {
            (Range::Real { min, max }, Value::Real(x)) => x.within(min, max),
            (Range::Whole { min, max }, Value::Whole(x)) => min <= x <= max,
            (Range::Any, _) => true,
            _ => false,
        }
    }

    /// Whether `value` is of the range's kind and lies inside it.
    #[verifier::when_used_as_spec(spec_admits)]
    pub fn admits(self, value: Value) -> (r: bool)
        ensures
            r == self.spec_admits(value),
    {
        match (self, value) {
            (Range::Real { min, max }, Value::Real(x)) => x.is_within(min, max),
            (Range::Whole { min, max }, Value::Whole(x)) => min <= x && x <= max,
            (Range::Any, _) => true,
            _ => false,
        }
    }
}

impl Encoding {
    /// Whether `value` is of the kind that the encoding carries.
    pub open spec fn carries(self, value: Value) -> bool {
        match self {
            Encoding::Half => value is Real,
            Encoding::Flag => value is Flag,
            _ => value is Whole,
        }
    }

    /// Whether a register can hold `value` as it is, so that reading the register
    /// gives `value` back.
    pub open spec fn exact(self, value: Value) -> bool {
        match (self, value) {
            (Encoding::Half, Value::Real(h)) => true,
            (Encoding::Seconds, Value::Whole(s)) => 0 <= s <= 65535,
            (Encoding::Minutes, Value::Whole(s)) => 0 <= s <= 65535 * 60 && s % 60 == 0,
            (Encoding::Days, Value::Whole(s)) => 0 <= s <= 65535 * 86400 && s % 86400 == 0,
            (Encoding::SignedWord, Value::Whole(n)) => -32768 <= n <= 32767,
            (Encoding::Flag, Value::Flag(b)) => true,
            (Encoding::Byte, Value::Whole(n)) => 0 <= n <= 255,
            _ => false,
        }
    }

    /// The value that a register holds.
    pub open spec fn spec_decode(self, raw: u16) -> Value {
        match self {
            Encoding::Half => Value::Real(Half { bits: raw }),
            Encoding::Seconds => Value::Whole(raw as i64),
            Encoding::Minutes => Value::Whole((raw * 60) as i64),
            Encoding::Days => Value::Whole((raw * 86400) as i64),
            Encoding::SignedWord => Value::Whole(signed_value(raw) as i64),
            Encoding::Flag => Value::Flag(raw == 1),
            Encoding::Byte => Value::Whole((raw % 256) as i64),
        }
    }

    /// The register that holds `value`: the nearest that the encoding has where it
    /// cannot hold the value itself, and 0 for a value of another kind.
    pub open spec fn spec_encode(self, value: Value) -> u16 {
        match (self, value) {
            (Encoding::Half, Value::Real(h)) => h.bits,
            (Encoding::Seconds, Value::Whole(s)) => Time { seconds: s }.periods(1) as u16,
            (Encoding::Minutes, Value::Whole(s)) => Time { seconds: s }.periods(60) as u16,
            (Encoding::Days, Value::Whole(s)) => Time { seconds: s }.periods(86400) as u16,
            (Encoding::SignedWord, Value::Whole(n)) => signed_word(
                clamped(n as int, -32768, 32767),
            ) as u16,
            (Encoding::Flag, Value::Flag(b)) => if b {
                1u16
            } else {
                0u16
            },
            (Encoding::Byte, Value::Whole(n)) => clamped(n as int, 0, 255) as u16,
            _ => 0u16,
        }
    }

    /// The value that a register holds.
    #[verifier::when_used_as_spec(spec_decode)]
    pub fn decode(self, raw: u16) -> (value: Value)
        ensures
            value == self.spec_decode(raw),
    {
        match self {
            Encoding::Half => Value::Real(half_precision(raw)),
            Encoding::Seconds => Value::Whole(Time::from_seconds(raw).seconds),
            Encoding::Minutes => Value::Whole(Time::from_minutes(raw).seconds),
            Encoding::Days => Value::Whole(Time::from_days(raw).seconds),
            Encoding::SignedWord => Value::Whole(signed(raw) as i64),
            Encoding::Flag => Value::Flag(flag(raw)),
            Encoding::Byte => Value::Whole(low_byte(raw) as i64),
        }
    }

    /// The register that holds `value`.
    #[verifier::when_used_as_spec(spec_encode)]
    pub fn encode(self, value: Value) -> (raw: u16)
        ensures
            raw == self.spec_encode(value),
    {
        match (self, value) {
            (Encoding::Half, Value::Real(h)) => h.to_bits(),
            (Encoding::Seconds, Value::Whole(s)) => Time { seconds: s }.whole_seconds(),
            (Encoding::Minutes, Value::Whole(s)) => Time { seconds: s }.whole_minutes(),
            (Encoding::Days, Value::Whole(s)) => Time { seconds: s }.whole_days(),
            (Encoding::SignedWord, Value::Whole(n)) => {
                let limit = TemperatureLimit {
                    degrees_celsius: if n < -32768 {
                        -32768
                    } else if n > 32767 {
                        32767
                    } else {
                        n as i32
                    },
                };
                unsigned(limit.to_word())
            },
            (Encoding::Flag, Value::Flag(b)) => flag_word(b),
            (Encoding::Byte, Value::Whole(n)) => {
                if n < 0 {
                    0
                } else if n > 255 {
                    255
                } else {
                    n as u16
                }
            },
            _ => 0,
        }
    }

    /// The length in seconds of the unit in which the encoding counts a span of time;
    /// 1 for an encoding that counts no time.
    pub open spec fn unit(self) -> int {
        match self {
            Encoding::Minutes => 60,
            Encoding::Days => 86400,
            _ => 1,
        }
    }

    /// What a register loses of a span of time is less than one unit of its encoding:
    /// a span that the register's range covers comes back shortened to whole units.
    pub proof fn lemma_time_loss(self, seconds: i64)
        requires
            self is Seconds || self is Minutes || self is Days,
            0 <= seconds < 65536 * self.unit(),
        ensures
            self.spec_decode(self.spec_encode(Value::Whole(seconds))) matches Value::Whole(back)
                && back <= seconds < back + self.unit() && back as int % self.unit() == 0,
    {
        let unit = self.unit();
        let count = seconds as int / unit;
        assert(0 <= count <= 65535);
        assert(count * unit <= seconds < count * unit + unit);
        assert(Time { seconds }.periods(unit) == count);
        assert((count * unit) % unit == 0) by (nonlinear_arith)
            requires
                unit > 0,
        ;
    }

    /// A register gives back every value that it can hold as it is.
    pub proof fn lemma_decode_encode(self, value: Value)
        requires
            self.exact(value),
        ensures
            self.spec_decode(self.spec_encode(value)) == value,
    {
    }

    /// What a register holds, it can hold as it is; and it is written back unchanged,
    /// unless it held a flag word other than 0 and 1, or a bus address with bits
    /// above the low byte.
    pub proof fn lemma_encode_decode(self, raw: u16)
        ensures
            self.exact(self.spec_decode(raw)),
            match self {
                Encoding::Flag => raw <= 1,
                Encoding::Byte => raw <= 255,
                _ => true,
            } ==> self.spec_encode(self.spec_decode(raw)) == raw,
    {
    }
}

impl Field {
    /// The address of the field's register.
    pub open spec fn spec_address(self) -> u16 {
        match self {
            Field::RegulationVoltage => 0xE000,
            Field::FloatVoltage => 0xE001,
            Field::TimeBeforeFloat => 0xE002,
            Field::TimeBeforeFloatLowBattery => 0xE003,
            Field::FloatLowBatteryVoltageTrigger => 0xE004,
            Field::FloatCancelVoltage => 0xE005,
            Field::ExitFloatTime => 0xE006,
            Field::EqualizeVoltage => 0xE007,
            Field::DaysBetweenEqualizeCycles => 0xE008,
            Field::EqualizeTimeLimitAboveRegulationVoltage => 0xE009,
            Field::EqualizeTimeLimitAtRegulationVoltage => 0xE00A,
            Field::AlarmOnSettingChange => 0xE00D,
            Field::ReferenceChargeVoltageLimit => 0xE010,
            Field::BatteryChargeCurrentLimit => 0xE013,
            Field::TemperatureCompensationCoefficent => 0xE01A,
            Field::HighVoltageDisconnect => 0xE01B,
            Field::HighVoltageReconnect => 0xE01C,
            Field::MaximumChargeVoltageReference => 0xE01D,
            Field::MaxBatteryTempCompensationLimit => 0xE01E,
            Field::MinBatteryTempCompensationLimit => 0xE01F,
            Field::LoadLowVoltageDisconnect => 0xE022,
            Field::LoadLowVoltageReconnect => 0xE023,
            Field::LoadHighVoltageDisconnect => 0xE024,
            Field::LoadHighVoltageReconnect => 0xE025,
            Field::LvdLoadCurrentCompensation => 0xE026,
            Field::LvdWarningTimeout => 0xE027,
            Field::LedGreenToGreenAndYellowLimit => 0xE030,
            Field::LedGreenAndYellowToYellowLimit => 0xE031,
            Field::LedYellowToYellowAndRedLimit => 0xE032,
            Field::LedYellowAndRedToRedFlashingLimit => 0xE033,
            Field::ModbusId => 0xE034,
            Field::MeterbusId => 0xE035,
            Field::MpptFixedVmp => 0xE036,
            Field::MpptFixedVmpPercent => 0xE037,
            Field::ChargeCurrentLimit => 0xE038,
        }
    }

    /// The address of the field's register.
    #[verifier::when_used_as_spec(spec_address)]
    pub fn address(self) -> (address: u16)
        ensures
            address == self.spec_address(),
            SETTINGS_BASE <= address <= SETTINGS_END,
    {
        match self {
            Field::RegulationVoltage => 0xE000,
            Field::FloatVoltage => 0xE001,
            Field::TimeBeforeFloat => 0xE002,
            Field::TimeBeforeFloatLowBattery => 0xE003,
            Field::FloatLowBatteryVoltageTrigger => 0xE004,
            Field::FloatCancelVoltage => 0xE005,
            Field::ExitFloatTime => 0xE006,
            Field::EqualizeVoltage => 0xE007,
            Field::DaysBetweenEqualizeCycles => 0xE008,
            Field::EqualizeTimeLimitAboveRegulationVoltage => 0xE009,
            Field::EqualizeTimeLimitAtRegulationVoltage => 0xE00A,
            Field::AlarmOnSettingChange => 0xE00D,
            Field::ReferenceChargeVoltageLimit => 0xE010,
            Field::BatteryChargeCurrentLimit => 0xE013,
            Field::TemperatureCompensationCoefficent => 0xE01A,
            Field::HighVoltageDisconnect => 0xE01B,
            Field::HighVoltageReconnect => 0xE01C,
            Field::MaximumChargeVoltageReference => 0xE01D,
            Field::MaxBatteryTempCompensationLimit => 0xE01E,
            Field::MinBatteryTempCompensationLimit => 0xE01F,
            Field::LoadLowVoltageDisconnect => 0xE022,
            Field::LoadLowVoltageReconnect => 0xE023,
            Field::LoadHighVoltageDisconnect => 0xE024,
            Field::LoadHighVoltageReconnect => 0xE025,
            Field::LvdLoadCurrentCompensation => 0xE026,
            Field::LvdWarningTimeout => 0xE027,
            Field::LedGreenToGreenAndYellowLimit => 0xE030,
            Field::LedGreenAndYellowToYellowLimit => 0xE031,
            Field::LedYellowToYellowAndRedLimit => 0xE032,
            Field::LedYellowAndRedToRedFlashingLimit => 0xE033,
            Field::ModbusId => 0xE034,
            Field::MeterbusId => 0xE035,
            Field::MpptFixedVmp => 0xE036,
            Field::MpptFixedVmpPercent => 0xE037,
            Field::ChargeCurrentLimit => 0xE038,
        }
    }

    /// The place of the field's register in the configuration block.
    pub open spec fn spec_offset(self) -> usize {
        (self.spec_address() - SETTINGS_BASE) as usize
    }

    /// The place of the field's register in the configuration block.
    #[verifier::when_used_as_spec(spec_offset)]
    pub fn offset(self) -> (offset: usize)
        ensures
            offset == self.spec_offset(),
            offset < SETTINGS_LEN,
    {
        (self.address() - SETTINGS_BASE) as usize
    }

    /// The field whose register stands at `offset` in the configuration block, if one does.
    #[verifier::opaque]
    pub open spec fn spec_at(offset: usize) -> Option<Field> {
        if offset == 0x00 {
            Some(Field::RegulationVoltage)
        } else         if offset == 0x01 {
            Some(Field::FloatVoltage)
        } else         if offset == 0x02 {
            Some(Field::TimeBeforeFloat)
        } else         if offset == 0x03 {
            Some(Field::TimeBeforeFloatLowBattery)
        } else         if offset == 0x04 {
            Some(Field::FloatLowBatteryVoltageTrigger)
        } else         if offset == 0x05 {
            Some(Field::FloatCancelVoltage)
        } else         if offset == 0x06 {
            Some(Field::ExitFloatTime)
        } else         if offset == 0x07 {
            Some(Field::EqualizeVoltage)
        } else         if offset == 0x08 {
            Some(Field::DaysBetweenEqualizeCycles)
        } else         if offset == 0x09 {
            Some(Field::EqualizeTimeLimitAboveRegulationVoltage)
        } else         if offset == 0x0A {
            Some(Field::EqualizeTimeLimitAtRegulationVoltage)
        } else         if offset == 0x0D {
            Some(Field::AlarmOnSettingChange)
        } else         if offset == 0x10 {
            Some(Field::ReferenceChargeVoltageLimit)
        } else         if offset == 0x13 {
            Some(Field::BatteryChargeCurrentLimit)
        } else         if offset == 0x1A {
            Some(Field::TemperatureCompensationCoefficent)
        } else         if offset == 0x1B {
            Some(Field::HighVoltageDisconnect)
        } else         if offset == 0x1C {
            Some(Field::HighVoltageReconnect)
        } else         if offset == 0x1D {
            Some(Field::MaximumChargeVoltageReference)
        } else         if offset == 0x1E {
            Some(Field::MaxBatteryTempCompensationLimit)
        } else         if offset == 0x1F {
            Some(Field::MinBatteryTempCompensationLimit)
        } else         if offset == 0x22 {
            Some(Field::LoadLowVoltageDisconnect)
        } else         if offset == 0x23 {
            Some(Field::LoadLowVoltageReconnect)
        } else         if offset == 0x24 {
            Some(Field::LoadHighVoltageDisconnect)
        } else         if offset == 0x25 {
            Some(Field::LoadHighVoltageReconnect)
        } else         if offset == 0x26 {
            Some(Field::LvdLoadCurrentCompensation)
        } else         if offset == 0x27 {
            Some(Field::LvdWarningTimeout)
        } else         if offset == 0x30 {
            Some(Field::LedGreenToGreenAndYellowLimit)
        } else         if offset == 0x31 {
            Some(Field::LedGreenAndYellowToYellowLimit)
        } else         if offset == 0x32 {
            Some(Field::LedYellowToYellowAndRedLimit)
        } else         if offset == 0x33 {
            Some(Field::LedYellowAndRedToRedFlashingLimit)
        } else         if offset == 0x34 {
            Some(Field::ModbusId)
        } else         if offset == 0x35 {
            Some(Field::MeterbusId)
        } else         if offset == 0x36 {
            Some(Field::MpptFixedVmp)
        } else         if offset == 0x37 {
            Some(Field::MpptFixedVmpPercent)
        } else         if offset == 0x38 {
            Some(Field::ChargeCurrentLimit)
        } else {
            None
        }
    }

    /// The field whose register stands at `offset` in the configuration block, if one does.
    #[verifier::when_used_as_spec(spec_at)]
    pub fn at(offset: usize) -> (field: Option<Field>)
        ensures
            field == Field::spec_at(offset),
            field matches Some(f) ==> f.spec_offset() == offset,
    {
        reveal(Field::spec_at);
        match offset {
            0x00 => Some(Field::RegulationVoltage),
            0x01 => Some(Field::FloatVoltage),
            0x02 => Some(Field::TimeBeforeFloat),
            0x03 => Some(Field::TimeBeforeFloatLowBattery),
            0x04 => Some(Field::FloatLowBatteryVoltageTrigger),
            0x05 => Some(Field::FloatCancelVoltage),
            0x06 => Some(Field::ExitFloatTime),
            0x07 => Some(Field::EqualizeVoltage),
            0x08 => Some(Field::DaysBetweenEqualizeCycles),
            0x09 => Some(Field::EqualizeTimeLimitAboveRegulationVoltage),
            0x0A => Some(Field::EqualizeTimeLimitAtRegulationVoltage),
            0x0D => Some(Field::AlarmOnSettingChange),
            0x10 => Some(Field::ReferenceChargeVoltageLimit),
            0x13 => Some(Field::BatteryChargeCurrentLimit),
            0x1A => Some(Field::TemperatureCompensationCoefficent),
            0x1B => Some(Field::HighVoltageDisconnect),
            0x1C => Some(Field::HighVoltageReconnect),
            0x1D => Some(Field::MaximumChargeVoltageReference),
            0x1E => Some(Field::MaxBatteryTempCompensationLimit),
            0x1F => Some(Field::MinBatteryTempCompensationLimit),
            0x22 => Some(Field::LoadLowVoltageDisconnect),
            0x23 => Some(Field::LoadLowVoltageReconnect),
            0x24 => Some(Field::LoadHighVoltageDisconnect),
            0x25 => Some(Field::LoadHighVoltageReconnect),
            0x26 => Some(Field::LvdLoadCurrentCompensation),
            0x27 => Some(Field::LvdWarningTimeout),
            0x30 => Some(Field::LedGreenToGreenAndYellowLimit),
            0x31 => Some(Field::LedGreenAndYellowToYellowLimit),
            0x32 => Some(Field::LedYellowToYellowAndRedLimit),
            0x33 => Some(Field::LedYellowAndRedToRedFlashingLimit),
            0x34 => Some(Field::ModbusId),
            0x35 => Some(Field::MeterbusId),
            0x36 => Some(Field::MpptFixedVmp),
            0x37 => Some(Field::MpptFixedVmpPercent),
            0x38 => Some(Field::ChargeCurrentLimit),
            _ => None,
        }
    }

    /// How the field's register carries its value.
    pub open spec fn spec_encoding(self) -> Encoding {
        match self {
            Field::RegulationVoltage => Encoding::Half,
            Field::FloatVoltage => Encoding::Half,
            Field::TimeBeforeFloat => Encoding::Seconds,
            Field::TimeBeforeFloatLowBattery => Encoding::Seconds,
            Field::FloatLowBatteryVoltageTrigger => Encoding::Half,
            Field::FloatCancelVoltage => Encoding::Half,
            Field::ExitFloatTime => Encoding::Seconds,
            Field::EqualizeVoltage => Encoding::Half,
            Field::DaysBetweenEqualizeCycles => Encoding::Days,
            Field::EqualizeTimeLimitAboveRegulationVoltage => Encoding::Seconds,
            Field::EqualizeTimeLimitAtRegulationVoltage => Encoding::Seconds,
            Field::AlarmOnSettingChange => Encoding::Flag,
            Field::ReferenceChargeVoltageLimit => Encoding::Half,
            Field::BatteryChargeCurrentLimit => Encoding::Half,
            Field::TemperatureCompensationCoefficent => Encoding::Half,
            Field::HighVoltageDisconnect => Encoding::Half,
            Field::HighVoltageReconnect => Encoding::Half,
            Field::MaximumChargeVoltageReference => Encoding::Half,
            Field::MaxBatteryTempCompensationLimit => Encoding::SignedWord,
            Field::MinBatteryTempCompensationLimit => Encoding::SignedWord,
            Field::LoadLowVoltageDisconnect => Encoding::Half,
            Field::LoadLowVoltageReconnect => Encoding::Half,
            Field::LoadHighVoltageDisconnect => Encoding::Half,
            Field::LoadHighVoltageReconnect => Encoding::Half,
            Field::LvdLoadCurrentCompensation => Encoding::Half,
            Field::LvdWarningTimeout => Encoding::Minutes,
            Field::LedGreenToGreenAndYellowLimit => Encoding::Half,
            Field::LedGreenAndYellowToYellowLimit => Encoding::Half,
            Field::LedYellowToYellowAndRedLimit => Encoding::Half,
            Field::LedYellowAndRedToRedFlashingLimit => Encoding::Half,
            Field::ModbusId => Encoding::Byte,
            Field::MeterbusId => Encoding::Byte,
            Field::MpptFixedVmp => Encoding::Half,
            Field::MpptFixedVmpPercent => Encoding::Half,
            Field::ChargeCurrentLimit => Encoding::Half,
        }
    }

    /// How the field's register carries its value.
    #[verifier::when_used_as_spec(spec_encoding)]
    pub fn encoding(self) -> (encoding: Encoding)
        ensures
            encoding == self.spec_encoding(),
    {
        match self {
            Field::RegulationVoltage => Encoding::Half,
            Field::FloatVoltage => Encoding::Half,
            Field::TimeBeforeFloat => Encoding::Seconds,
            Field::TimeBeforeFloatLowBattery => Encoding::Seconds,
            Field::FloatLowBatteryVoltageTrigger => Encoding::Half,
            Field::FloatCancelVoltage => Encoding::Half,
            Field::ExitFloatTime => Encoding::Seconds,
            Field::EqualizeVoltage => Encoding::Half,
            Field::DaysBetweenEqualizeCycles => Encoding::Days,
            Field::EqualizeTimeLimitAboveRegulationVoltage => Encoding::Seconds,
            Field::EqualizeTimeLimitAtRegulationVoltage => Encoding::Seconds,
            Field::AlarmOnSettingChange => Encoding::Flag,
            Field::ReferenceChargeVoltageLimit => Encoding::Half,
            Field::BatteryChargeCurrentLimit => Encoding::Half,
            Field::TemperatureCompensationCoefficent => Encoding::Half,
            Field::HighVoltageDisconnect => Encoding::Half,
            Field::HighVoltageReconnect => Encoding::Half,
            Field::MaximumChargeVoltageReference => Encoding::Half,
            Field::MaxBatteryTempCompensationLimit => Encoding::SignedWord,
            Field::MinBatteryTempCompensationLimit => Encoding::SignedWord,
            Field::LoadLowVoltageDisconnect => Encoding::Half,
            Field::LoadLowVoltageReconnect => Encoding::Half,
            Field::LoadHighVoltageDisconnect => Encoding::Half,
            Field::LoadHighVoltageReconnect => Encoding::Half,
            Field::LvdLoadCurrentCompensation => Encoding::Half,
            Field::LvdWarningTimeout => Encoding::Minutes,
            Field::LedGreenToGreenAndYellowLimit => Encoding::Half,
            Field::LedGreenAndYellowToYellowLimit => Encoding::Half,
            Field::LedYellowToYellowAndRedLimit => Encoding::Half,
            Field::LedYellowAndRedToRedFlashingLimit => Encoding::Half,
            Field::ModbusId => Encoding::Byte,
            Field::MeterbusId => Encoding::Byte,
            Field::MpptFixedVmp => Encoding::Half,
            Field::MpptFixedVmpPercent => Encoding::Half,
            Field::ChargeCurrentLimit => Encoding::Half,
        }
    }

    /// The values that the field may take. A span of time is bounded in seconds,
    /// whatever the unit of its register.
    pub open spec fn spec_range(self) -> Range {
        match self {
            Field::RegulationVoltage => Range::Real { min: Half { bits: 0 }, max: Half { bits: MAX_VOLTS } },
            Field::FloatVoltage => Range::Real { min: Half { bits: 0 }, max: Half { bits: MAX_VOLTS } },
            Field::TimeBeforeFloat => Range::Whole { min: 0i64, max: 65535i64 },
            Field::TimeBeforeFloatLowBattery => Range::Whole { min: 0i64, max: 65535i64 },
            Field::FloatLowBatteryVoltageTrigger => Range::Real { min: Half { bits: 0 }, max: Half { bits: MAX_VOLTS } },
            Field::FloatCancelVoltage => Range::Real { min: Half { bits: 0 }, max: Half { bits: MAX_VOLTS } },
            Field::ExitFloatTime => Range::Whole { min: 0i64, max: 65535i64 },
            Field::EqualizeVoltage => Range::Real { min: Half { bits: 0 }, max: Half { bits: MAX_VOLTS } },
            Field::DaysBetweenEqualizeCycles => Range::Whole { min: 0i64, max: MAX_EQUALIZE_INTERVAL },
            Field::EqualizeTimeLimitAboveRegulationVoltage => Range::Whole { min: 0i64, max: 65535i64 },
            Field::EqualizeTimeLimitAtRegulationVoltage => Range::Whole { min: 0i64, max: 65535i64 },
            Field::AlarmOnSettingChange => Range::Any,
            Field::ReferenceChargeVoltageLimit => Range::Real { min: Half { bits: 0 }, max: Half { bits: MAX_VOLTS } },
            Field::BatteryChargeCurrentLimit => Range::Real { min: Half { bits: 0 }, max: Half { bits: MAX_AMPERES } },
            Field::TemperatureCompensationCoefficent => Range::Real { min: Half { bits: 0 }, max: Half { bits: MAX_VOLTS } },
            Field::HighVoltageDisconnect => Range::Real { min: Half { bits: 0 }, max: Half { bits: MAX_VOLTS } },
            Field::HighVoltageReconnect => Range::Real { min: Half { bits: 0 }, max: Half { bits: MAX_VOLTS } },
            Field::MaximumChargeVoltageReference => Range::Real { min: Half { bits: 0 }, max: Half { bits: MAX_VOLTS } },
            Field::MaxBatteryTempCompensationLimit => Range::Whole { min: -128i64, max: 127i64 },
            Field::MinBatteryTempCompensationLimit => Range::Whole { min: -128i64, max: 127i64 },
            Field::LoadLowVoltageDisconnect => Range::Real { min: Half { bits: 0 }, max: Half { bits: MAX_VOLTS } },
            Field::LoadLowVoltageReconnect => Range::Real { min: Half { bits: 0 }, max: Half { bits: MAX_VOLTS } },
            Field::LoadHighVoltageDisconnect => Range::Real { min: Half { bits: 0 }, max: Half { bits: MAX_VOLTS } },
            Field::LoadHighVoltageReconnect => Range::Real { min: Half { bits: 0 }, max: Half { bits: MAX_VOLTS } },
            Field::LvdLoadCurrentCompensation => Range::Real { min: Half { bits: 0 }, max: Half { bits: MAX_OHMS } },
            Field::LvdWarningTimeout => Range::Whole { min: 0i64, max: 65535i64 },
            Field::LedGreenToGreenAndYellowLimit => Range::Real { min: Half { bits: 0 }, max: Half { bits: MAX_VOLTS } },
            Field::LedGreenAndYellowToYellowLimit => Range::Real { min: Half { bits: 0 }, max: Half { bits: MAX_VOLTS } },
            Field::LedYellowToYellowAndRedLimit => Range::Real { min: Half { bits: 0 }, max: Half { bits: MAX_VOLTS } },
            Field::LedYellowAndRedToRedFlashingLimit => Range::Real { min: Half { bits: 0 }, max: Half { bits: MAX_VOLTS } },
            Field::ModbusId => Range::Whole { min: 1i64, max: 247i64 },
            Field::MeterbusId => Range::Whole { min: 1i64, max: 15i64 },
            Field::MpptFixedVmp => Range::Real { min: Half { bits: 0 }, max: Half { bits: MAX_FIXED_VOLTS } },
            Field::MpptFixedVmpPercent => Range::Real { min: Half { bits: 0 }, max: Half { bits: MAX_RATIO } },
            Field::ChargeCurrentLimit => Range::Real { min: Half { bits: 0 }, max: Half { bits: MAX_AMPERES } },
        }
    }

    /// The values that the field may take.
    #[verifier::when_used_as_spec(spec_range)]
    pub fn range(self) -> (range: Range)
        ensures
            range == self.spec_range(),
    {
        match self {
            Field::RegulationVoltage => Range::Real { min: Half { bits: 0 }, max: Half { bits: MAX_VOLTS } },
            Field::FloatVoltage => Range::Real { min: Half { bits: 0 }, max: Half { bits: MAX_VOLTS } },
            Field::TimeBeforeFloat => Range::Whole { min: 0i64, max: 65535i64 },
            Field::TimeBeforeFloatLowBattery => Range::Whole { min: 0i64, max: 65535i64 },
            Field::FloatLowBatteryVoltageTrigger => Range::Real { min: Half { bits: 0 }, max: Half { bits: MAX_VOLTS } },
            Field::FloatCancelVoltage => Range::Real { min: Half { bits: 0 }, max: Half { bits: MAX_VOLTS } },
            Field::ExitFloatTime => Range::Whole { min: 0i64, max: 65535i64 },
            Field::EqualizeVoltage => Range::Real { min: Half { bits: 0 }, max: Half { bits: MAX_VOLTS } },
            Field::DaysBetweenEqualizeCycles => Range::Whole { min: 0i64, max: MAX_EQUALIZE_INTERVAL },
            Field::EqualizeTimeLimitAboveRegulationVoltage => Range::Whole { min: 0i64, max: 65535i64 },
            Field::EqualizeTimeLimitAtRegulationVoltage => Range::Whole { min: 0i64, max: 65535i64 },
            Field::AlarmOnSettingChange => Range::Any,
            Field::ReferenceChargeVoltageLimit => Range::Real { min: Half { bits: 0 }, max: Half { bits: MAX_VOLTS } },
            Field::BatteryChargeCurrentLimit => Range::Real { min: Half { bits: 0 }, max: Half { bits: MAX_AMPERES } },
            Field::TemperatureCompensationCoefficent => Range::Real { min: Half { bits: 0 }, max: Half { bits: MAX_VOLTS } },
            Field::HighVoltageDisconnect => Range::Real { min: Half { bits: 0 }, max: Half { bits: MAX_VOLTS } },
            Field::HighVoltageReconnect => Range::Real { min: Half { bits: 0 }, max: Half { bits: MAX_VOLTS } },
            Field::MaximumChargeVoltageReference => Range::Real { min: Half { bits: 0 }, max: Half { bits: MAX_VOLTS } },
            Field::MaxBatteryTempCompensationLimit => Range::Whole { min: -128i64, max: 127i64 },
            Field::MinBatteryTempCompensationLimit => Range::Whole { min: -128i64, max: 127i64 },
            Field::LoadLowVoltageDisconnect => Range::Real { min: Half { bits: 0 }, max: Half { bits: MAX_VOLTS } },
            Field::LoadLowVoltageReconnect => Range::Real { min: Half { bits: 0 }, max: Half { bits: MAX_VOLTS } },
            Field::LoadHighVoltageDisconnect => Range::Real { min: Half { bits: 0 }, max: Half { bits: MAX_VOLTS } },
            Field::LoadHighVoltageReconnect => Range::Real { min: Half { bits: 0 }, max: Half { bits: MAX_VOLTS } },
            Field::LvdLoadCurrentCompensation => Range::Real { min: Half { bits: 0 }, max: Half { bits: MAX_OHMS } },
            Field::LvdWarningTimeout => Range::Whole { min: 0i64, max: 65535i64 },
            Field::LedGreenToGreenAndYellowLimit => Range::Real { min: Half { bits: 0 }, max: Half { bits: MAX_VOLTS } },
            Field::LedGreenAndYellowToYellowLimit => Range::Real { min: Half { bits: 0 }, max: Half { bits: MAX_VOLTS } },
            Field::LedYellowToYellowAndRedLimit => Range::Real { min: Half { bits: 0 }, max: Half { bits: MAX_VOLTS } },
            Field::LedYellowAndRedToRedFlashingLimit => Range::Real { min: Half { bits: 0 }, max: Half { bits: MAX_VOLTS } },
            Field::ModbusId => Range::Whole { min: 1i64, max: 247i64 },
            Field::MeterbusId => Range::Whole { min: 1i64, max: 15i64 },
            Field::MpptFixedVmp => Range::Real { min: Half { bits: 0 }, max: Half { bits: MAX_FIXED_VOLTS } },
            Field::MpptFixedVmpPercent => Range::Real { min: Half { bits: 0 }, max: Half { bits: MAX_RATIO } },
            Field::ChargeCurrentLimit => Range::Real { min: Half { bits: 0 }, max: Half { bits: MAX_AMPERES } },
        }
    }

    /// The field's name.
    pub open spec fn spec_name(self) -> Seq<char> {
        match self {
            Field::RegulationVoltage => "regulation_voltage"@,
            Field::FloatVoltage => "float_voltage"@,
            Field::TimeBeforeFloat => "time_before_float"@,
            Field::TimeBeforeFloatLowBattery => "time_before_float_low_battery"@,
            Field::FloatLowBatteryVoltageTrigger => "float_low_battery_voltage_trigger"@,
            Field::FloatCancelVoltage => "float_cancel_voltage"@,
            Field::ExitFloatTime => "exit_float_time"@,
            Field::EqualizeVoltage => "equalize_voltage"@,
            Field::DaysBetweenEqualizeCycles => "days_between_equalize_cycles"@,
            Field::EqualizeTimeLimitAboveRegulationVoltage => "equalize_time_limit_above_regulation_voltage"@,
            Field::EqualizeTimeLimitAtRegulationVoltage => "equalize_time_limit_at_regulation_voltage"@,
            Field::AlarmOnSettingChange => "alarm_on_setting_change"@,
            Field::ReferenceChargeVoltageLimit => "reference_charge_voltage_limit"@,
            Field::BatteryChargeCurrentLimit => "battery_charge_current_limit"@,
            Field::TemperatureCompensationCoefficent => "temperature_compensation_coefficent"@,
            Field::HighVoltageDisconnect => "high_voltage_disconnect"@,
            Field::HighVoltageReconnect => "high_voltage_reconnect"@,
            Field::MaximumChargeVoltageReference => "maximum_charge_voltage_reference"@,
            Field::MaxBatteryTempCompensationLimit => "max_battery_temp_compensation_limit"@,
            Field::MinBatteryTempCompensationLimit => "min_battery_temp_compensation_limit"@,
            Field::LoadLowVoltageDisconnect => "load_low_voltage_disconnect"@,
            Field::LoadLowVoltageReconnect => "load_low_voltage_reconnect"@,
            Field::LoadHighVoltageDisconnect => "load_high_voltage_disconnect"@,
            Field::LoadHighVoltageReconnect => "load_high_voltage_reconnect"@,
            Field::LvdLoadCurrentCompensation => "lvd_load_current_compensation"@,
            Field::LvdWarningTimeout => "lvd_warning_timeout"@,
            Field::LedGreenToGreenAndYellowLimit => "led_green_to_green_and_yellow_limit"@,
            Field::LedGreenAndYellowToYellowLimit => "led_green_and_yellow_to_yellow_limit"@,
            Field::LedYellowToYellowAndRedLimit => "led_yellow_to_yellow_and_red_limit"@,
            Field::LedYellowAndRedToRedFlashingLimit => "led_yellow_and_red_to_red_flashing_limit"@,
            Field::ModbusId => "modbus_id"@,
            Field::MeterbusId => "meterbus_id"@,
            Field::MpptFixedVmp => "mppt_fixed_vmp"@,
            Field::MpptFixedVmpPercent => "mppt_fixed_vmp_percent"@,
            Field::ChargeCurrentLimit => "charge_current_limit"@,
        }
    }

    /// The field's name.
    pub fn name(self) -> (name: &'static str)
        ensures
            name@ == self.spec_name(),
    {
        match self {
            Field::RegulationVoltage => "regulation_voltage",
            Field::FloatVoltage => "float_voltage",
            Field::TimeBeforeFloat => "time_before_float",
            Field::TimeBeforeFloatLowBattery => "time_before_float_low_battery",
            Field::FloatLowBatteryVoltageTrigger => "float_low_battery_voltage_trigger",
            Field::FloatCancelVoltage => "float_cancel_voltage",
            Field::ExitFloatTime => "exit_float_time",
            Field::EqualizeVoltage => "equalize_voltage",
            Field::DaysBetweenEqualizeCycles => "days_between_equalize_cycles",
            Field::EqualizeTimeLimitAboveRegulationVoltage => "equalize_time_limit_above_regulation_voltage",
            Field::EqualizeTimeLimitAtRegulationVoltage => "equalize_time_limit_at_regulation_voltage",
            Field::AlarmOnSettingChange => "alarm_on_setting_change",
            Field::ReferenceChargeVoltageLimit => "reference_charge_voltage_limit",
            Field::BatteryChargeCurrentLimit => "battery_charge_current_limit",
            Field::TemperatureCompensationCoefficent => "temperature_compensation_coefficent",
            Field::HighVoltageDisconnect => "high_voltage_disconnect",
            Field::HighVoltageReconnect => "high_voltage_reconnect",
            Field::MaximumChargeVoltageReference => "maximum_charge_voltage_reference",
            Field::MaxBatteryTempCompensationLimit => "max_battery_temp_compensation_limit",
            Field::MinBatteryTempCompensationLimit => "min_battery_temp_compensation_limit",
            Field::LoadLowVoltageDisconnect => "load_low_voltage_disconnect",
            Field::LoadLowVoltageReconnect => "load_low_voltage_reconnect",
            Field::LoadHighVoltageDisconnect => "load_high_voltage_disconnect",
            Field::LoadHighVoltageReconnect => "load_high_voltage_reconnect",
            Field::LvdLoadCurrentCompensation => "lvd_load_current_compensation",
            Field::LvdWarningTimeout => "lvd_warning_timeout",
            Field::LedGreenToGreenAndYellowLimit => "led_green_to_green_and_yellow_limit",
            Field::LedGreenAndYellowToYellowLimit => "led_green_and_yellow_to_yellow_limit",
            Field::LedYellowToYellowAndRedLimit => "led_yellow_to_yellow_and_red_limit",
            Field::LedYellowAndRedToRedFlashingLimit => "led_yellow_and_red_to_red_flashing_limit",
            Field::ModbusId => "modbus_id",
            Field::MeterbusId => "meterbus_id",
            Field::MpptFixedVmp => "mppt_fixed_vmp",
            Field::MpptFixedVmpPercent => "mppt_fixed_vmp_percent",
            Field::ChargeCurrentLimit => "charge_current_limit",
        }
    }

    /// Every field has a register of its own inside the configuration block, and
    /// `at` finds the field from the register's place.
    pub proof fn lemma_one_register_each(self, other: Field)
        ensures
            self.spec_offset() < SETTINGS_LEN,
            Field::spec_at(self.spec_offset()) == Some(self),
            self.spec_offset() == other.spec_offset() ==> self == other,
    {
        reveal(Field::spec_at);
    }

    /// A place in the configuration block belongs to the field that `at` finds there,
    /// and to no other.
    pub proof fn lemma_at(offset: usize)
        ensures
            match Field::spec_at(offset) {
                Some(field) => field.spec_offset() == offset,
                None => forall|field: Field| field.spec_offset() != offset,
            },
    {
        reveal(Field::spec_at);
    }

    /// The two ends of a field's range are values that the field may take.
    pub proof fn lemma_bounds_are_admitted(self)
        ensures
            self.spec_range().spec_admits(self.spec_range().lower()),
            self.spec_range().spec_admits(self.spec_range().upper()),
    {
    }

    /// One step above the upper end of a field's range, and one step below the lower
    /// end, lie values that the field may not take; and so does every number beyond
    /// them, and a NaN.
    pub proof fn lemma_outside_is_refused(self, value: Value)
        requires
            !(self.spec_range() is Any),
        ensures
            !self.spec_range().spec_admits(self.spec_range().upper().successor()),
            !self.spec_range().spec_admits(self.spec_range().lower().predecessor()),
            match (self.spec_range(), value) {
                (Range::Real { min, max }, Value::Real(x)) => x.below(min) || max.below(x)
                    || x.nan(),
                (Range::Whole { min, max }, Value::Whole(n)) => n < min || n > max,
                _ => false,
            } ==> !self.spec_range().spec_admits(value),
    {
    }
}

/// The upper ends of the ranges of half-precision fields encode the numbers 17.5, 120,
/// 40, 10000 and 1, and their common lower end encodes 0.
pub proof fn lemma_limits_in_units()
    ensures
        (Half { bits: 0 }).scaled() == 0,
        (Half { bits: MAX_VOLTS }).scaled() * 2 == 35 * pow2(24),
        (Half { bits: MAX_FIXED_VOLTS }).scaled() == 120 * pow2(24),
        (Half { bits: MAX_AMPERES }).scaled() == 40 * pow2(24),
        (Half { bits: MAX_OHMS }).scaled() == 10000 * pow2(24),
        (Half { bits: MAX_RATIO }).scaled() == pow2(24),
{
    lemma2_to64();
    let volts = Half { bits: MAX_VOLTS };
    assert(volts.exponent() == 19 && volts.fraction() == 96);
    let fixed = Half { bits: MAX_FIXED_VOLTS };
    assert(fixed.exponent() == 21 && fixed.fraction() == 896);
    let amperes = Half { bits: MAX_AMPERES };
    assert(amperes.exponent() == 20 && amperes.fraction() == 256);
    let ohms = Half { bits: MAX_OHMS };
    assert(ohms.exponent() == 28 && ohms.fraction() == 226);
    let ratio = Half { bits: MAX_RATIO };
    assert(ratio.exponent() == 15 && ratio.fraction() == 0);
}

} // verus!
