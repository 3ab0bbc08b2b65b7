//! The fault and alarm words of the controller, as sets of bits.
//!
//! A set is as wide as what it is read from: sixteen bits for a register, thirty-two
//! for a register pair. Some of the bits have a name. The others are kept all the
//! same: firmware may set a bit that this crate has no name for, and reading does not
//! drop it.

use vstd::prelude::*;

verus! {

/// Faults of the solar array input: a set over the sixteen bits of one register.
#[derive(Debug, Clone, Copy, PartialEq, Eq, Structural, Hash)]
pub struct ArrayFaults {
    pub bits: u16,
}

impl ArrayFaults {
    pub const OVER_CURRENT: u16 = 0x0001;

    pub const MOSFET_SHORTED: u16 = 0x0002;

    pub const SOFTWARE: u16 = 0x0004;

    pub const BATTERY_HVD: u16 = 0x0008;

    pub const ARRAY_HVD: u16 = 0x0010;

    pub const CUSTOM_SETTINGS_EDIT: u16 = 0x0020;

    pub const RTS_SHORTED: u16 = 0x0040;

    pub const RTS_NO_LONGER_VALID: u16 = 0x0080;

    pub const LOCAL_TEMP_SENSOR_DAMAGED: u16 = 0x0100;

    pub const BATTERY_LOW_VOLTAGE_DISCONNECT: u16 = 0x0200;

    pub const SLAVE_TIMEOUT: u16 = 0x0400;

    pub const DIP_SWITCH_CHANGED: u16 = 0x0800;

    pub const FAULT13: u16 = 0x1000;

    pub const FAULT14: u16 = 0x2000;

    pub const FAULT15: u16 = 0x4000;

    pub const FAULT16: u16 = 0x8000;

    /// The bits that have a name.
    pub const NAMED: u16 = 0xFFFF;

    /// Every bit of the set's width.
    pub const ALL: u16 = 0xFFFF;

    /// The bits that are set.
    pub open spec fn value(self) -> u16 {
        self.bits
    }

    /// Whether every bit of `flags` is set.
    pub open spec fn has(self, flags: u16) -> bool {
        self.value() & flags == flags
    }

    /// The set that a register holds.
    pub open spec fn holding(raw: u16) -> ArrayFaults {
        ArrayFaults { bits: raw }
    }

    /// The set with no bit set.
    pub fn empty() -> (set: ArrayFaults)
        ensures
            set.value() == 0,
    {
        ArrayFaults { bits: 0 }
    }

    /// The set that a register holds. The width of the set is the whole of it, so
    /// that every bit is kept, with a name or without.
    pub fn from_bits_truncate(raw: u16) -> (set: ArrayFaults)
        ensures
            set == ArrayFaults::holding(raw),
            set.value() == raw,
    {
        ArrayFaults { bits: raw }
    }

    /// The bits that are set.
    pub fn bits(self) -> (raw: u16)
        ensures
            raw == self.value(),
    {
        self.bits
    }

    /// Whether no bit is set.
    pub fn is_empty(self) -> (r: bool)
        ensures
            r == (self.value() == 0),
    {
        self.bits == 0
    }

    /// Whether every bit of `flags` is set.
    pub fn contains(self, flags: u16) -> (r: bool)
        ensures
            r == self.has(flags),
    {
        self.bits & flags == flags
    }

    /// Whether some bit of `flags` is set.
    pub fn intersects(self, flags: u16) -> (r: bool)
        ensures
            r == (self.value() & flags != 0),
    {
        self.bits & flags != 0
    }

    /// The bits set in either.
    pub fn union(self, other: ArrayFaults) -> (set: ArrayFaults)
        ensures
            set.value() == self.value() | other.value(),
    {
        ArrayFaults { bits: self.bits | other.bits }
    }

    /// The bits set in both.
    pub fn intersection(self, other: ArrayFaults) -> (set: ArrayFaults)
        ensures
            set.value() == self.value() & other.value(),
    {
        ArrayFaults { bits: self.bits & other.bits }
    }

    /// Reading keeps each of the sixteen bits, named or not: the set holds exactly the
    /// bits of what it was read from, and gives them back.
    pub proof fn lemma_bits_survive(raw: u16)
        ensures
            ArrayFaults::holding(raw).value() == raw,
            forall|i: u16|
                i < 16 ==> (#[trigger] (ArrayFaults::holding(raw).value() >> i)) & 1 == (raw >> i) & 1,
            ArrayFaults::holding(ArrayFaults::holding(raw).value()) == ArrayFaults::holding(raw),
    {
    }

}

impl Default for ArrayFaults {
    fn default() -> (set: ArrayFaults)
        ensures
            set.value() == 0,
    {
        ArrayFaults::empty()
    }
}

/// Faults of the load output: a set over the sixteen bits of one register, the low
/// eight of which have a name.
#[derive(Debug, Clone, Copy, PartialEq, Eq, Structural, Hash)]
pub struct LoadFaults {
    pub bits: u16,
}

impl LoadFaults {
    pub const EXTERNAL_SHORT_CIRCIT: u16 = 0x0001;

    pub const OVERCURRENT: u16 = 0x0002;

    pub const MOSFET_SHORTED: u16 = 0x0004;

    pub const SOFTWARE: u16 = 0x0008;

    pub const LOAD_HVD: u16 = 0x0010;

    pub const HIGH_TEMP_DISCONNECT: u16 = 0x0020;

    pub const DIP_SWITCH_CHANGED: u16 = 0x0040;

    pub const CUSTOM_SETTINGS_EDIT: u16 = 0x0080;

    /// The bits that have a name.
    pub const NAMED: u16 = 0x00FF;

    /// Every bit of the set's width.
    pub const ALL: u16 = 0xFFFF;

    /// The bits that are set.
    pub open spec fn value(self) -> u16 {
        self.bits
    }

    /// Whether every bit of `flags` is set.
    pub open spec fn has(self, flags: u16) -> bool {
        self.value() & flags == flags
    }

    /// The set that a register holds.
    pub open spec fn holding(raw: u16) -> LoadFaults {
        LoadFaults { bits: raw }
    }

    /// The set with no bit set.
    pub fn empty() -> (set: LoadFaults)
        ensures
            set.value() == 0,
    {
        LoadFaults { bits: 0 }
    }

    /// The set that a register holds. The width of the set is the whole of it, so
    /// that every bit is kept, with a name or without.
    pub fn from_bits_truncate(raw: u16) -> (set: LoadFaults)
        ensures
            set == LoadFaults::holding(raw),
            set.value() == raw,
    {
        LoadFaults { bits: raw }
    }

    /// The bits that are set.
    pub fn bits(self) -> (raw: u16)
        ensures
            raw == self.value(),
    {
        self.bits
    }

    /// Whether no bit is set.
    pub fn is_empty(self) -> (r: bool)
        ensures
            r == (self.value() == 0),
    {
        self.bits == 0
    }

    /// Whether every bit of `flags` is set.
    pub fn contains(self, flags: u16) -> (r: bool)
        ensures
            r == self.has(flags),
    {
        self.bits & flags == flags
    }

    /// Whether some bit of `flags` is set.
    pub fn intersects(self, flags: u16) -> (r: bool)
        ensures
            r == (self.value() & flags != 0),
    {
        self.bits & flags != 0
    }

    /// The bits set in either.
    pub fn union(self, other: LoadFaults) -> (set: LoadFaults)
        ensures
            set.value() == self.value() | other.value(),
    {
        LoadFaults { bits: self.bits | other.bits }
    }

    /// The bits set in both.
    pub fn intersection(self, other: LoadFaults) -> (set: LoadFaults)
        ensures
            set.value() == self.value() & other.value(),
    {
        LoadFaults { bits: self.bits & other.bits }
    }

    /// Reading keeps each of the sixteen bits, named or not: the set holds exactly the
    /// bits of what it was read from, and gives them back.
    pub proof fn lemma_bits_survive(raw: u16)
        ensures
            LoadFaults::holding(raw).value() == raw,
            forall|i: u16|
                i < 16 ==> (#[trigger] (LoadFaults::holding(raw).value() >> i)) & 1 == (raw >> i) & 1,
            LoadFaults::holding(LoadFaults::holding(raw).value()) == LoadFaults::holding(raw),
    {
    }

}

impl Default for LoadFaults {
    fn default() -> (set: LoadFaults)
        ensures
            set.value() == 0,
    {
        LoadFaults::empty()
    }
}

/// Alarms: a set over the thirty-two bits of a register pair, the low twenty-seven of
/// which have a name.
#[derive(Debug, Clone, Copy, PartialEq, Eq, Structural, Hash)]
pub struct Alarms {
    pub bits: u32,
}

impl Alarms {
    pub const RTS_OPEN: u32 = 0x0000_0001;

    pub const RTS_SHORTED: u32 = 0x0000_0002;

    pub const RTS_DISCONNECTED: u32 = 0x0000_0004;

    pub const HEATSINK_TEMP_SENSOR_OPEN: u32 = 0x0000_0008;

    pub const HEATSINK_TEMP_SENSOR_SHORTED: u32 = 0x0000_0010;

    pub const HEATSINK_TEMP_LIMIT: u32 = 0x0000_0020;

    pub const INDUCTOR_TEMP_SENSOR_OPEN: u32 = 0x0000_0040;

    pub const INDUCTOR_TEMP_SENSOR_SHORTED: u32 = 0x0000_0080;

    pub const INDUCTOR_TEMP_LIMIT: u32 = 0x0000_0100;

    pub const CURRENT_LIMIT: u32 = 0x0000_0200;

    pub const CURRENT_MEASUREMENT_ERROR: u32 = 0x0000_0400;

    pub const BATTERY_SENSE_OUT_OF_RANGE: u32 = 0x0000_0800;

    pub const BATTERY_SENSE_DISCONNECTED: u32 = 0x0000_1000;

    pub const UNCALIBRATED: u32 = 0x0000_2000;

    pub const TB5V: u32 = 0x0000_4000;

    pub const FP10SUPPLY_OUT_OF_RANGE: u32 = 0x0000_8000;

    pub const UNUSED: u32 = 0x0001_0000;

    pub const MOSFET_OPEN: u32 = 0x0002_0000;

    pub const ARRAY_CURRENT_OFFSET: u32 = 0x0004_0000;

    pub const LOAD_CURRENT_OFFSET: u32 = 0x0008_0000;

    pub const P3V3_SUPPLY_OUT_OF_RANGE: u32 = 0x0010_0000;

    pub const P12V_SUPPLY_OUT_OF_RANGE: u32 = 0x0020_0000;

    pub const HIGH_INPUT_VOLTAGE_LIMIT: u32 = 0x0040_0000;

    pub const CONTROLLER_RESET: u32 = 0x0080_0000;

    pub const LOAD_LVD: u32 = 0x0100_0000;

    pub const LOG_TIMEOUT: u32 = 0x0200_0000;

    pub const EEPROM_ACCESS_FAILURE: u32 = 0x0400_0000;

    /// The bits that have a name.
    pub const NAMED: u32 = 0x07FF_FFFF;

    /// Every bit of the set's width.
    pub const ALL: u32 = 0xFFFF_FFFF;

    /// The bits that are set.
    pub open spec fn value(self) -> u32 {
        self.bits
    }

    /// Whether every bit of `flags` is set.
    pub open spec fn has(self, flags: u32) -> bool {
        self.value() & flags == flags
    }

    /// The set that a register pair holds.
    pub open spec fn holding(raw: u32) -> Alarms {
        Alarms { bits: raw }
    }

    /// The set with no bit set.
    pub fn empty() -> (set: Alarms)
        ensures
            set.value() == 0,
    {
        Alarms { bits: 0 }
    }

    /// The set that a register pair holds. The width of the set is the whole of it, so
    /// that every bit is kept, with a name or without.
    pub fn from_bits_truncate(raw: u32) -> (set: Alarms)
        ensures
            set == Alarms::holding(raw),
            set.value() == raw,
    {
        Alarms { bits: raw }
    }

    /// The bits that are set.
    pub fn bits(self) -> (raw: u32)
        ensures
            raw == self.value(),
    {
        self.bits
    }

    /// Whether no bit is set.
    pub fn is_empty(self) -> (r: bool)
        ensures
            r == (self.value() == 0),
    {
        self.bits == 0
    }

    /// Whether every bit of `flags` is set.
    pub fn contains(self, flags: u32) -> (r: bool)
        ensures
            r == self.has(flags),
    {
        self.bits & flags == flags
    }

    /// Whether some bit of `flags` is set.
    pub fn intersects(self, flags: u32) -> (r: bool)
        ensures
            r == (self.value() & flags != 0),
    {
        self.bits & flags != 0
    }

    /// The bits set in either.
    pub fn union(self, other: Alarms) -> (set: Alarms)
        ensures
            set.value() == self.value() | other.value(),
    {
        Alarms { bits: self.bits | other.bits }
    }

    /// The bits set in both.
    pub fn intersection(self, other: Alarms) -> (set: Alarms)
        ensures
            set.value() == self.value() & other.value(),
    {
        Alarms { bits: self.bits & other.bits }
    }

    /// Reading keeps each of the thirty-two bits, named or not: the set holds exactly the
    /// bits of what it was read from, and gives them back.
    pub proof fn lemma_bits_survive(raw: u32)
        ensures
            Alarms::holding(raw).value() == raw,
            forall|i: u32|
                i < 32 ==> (#[trigger] (Alarms::holding(raw).value() >> i)) & 1 == (raw >> i) & 1,
            Alarms::holding(Alarms::holding(raw).value()) == Alarms::holding(raw),
    {
    }

}

impl Default for Alarms {
    fn default() -> (set: Alarms)
        ensures
            set.value() == 0,
    {
        Alarms::empty()
    }
}

} // verus!
