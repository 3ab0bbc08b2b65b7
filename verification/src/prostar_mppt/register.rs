//! The encodings that a single register, or a pair of registers, can carry.

use vstd::prelude::*;
use crate::binary16::Half;

verus! {

/// The count that a register pair carries: the first register is the upper half.
pub open spec fn pair_value(high: u16, low: u16) -> int {
    high as int * 65536 + low as int
}

/// The number that a register carries when it is read as a signed word.
pub open spec fn signed_value(raw: u16) -> int {
    if raw < 32768 {
        raw as int
    } else {
        raw as int - 65536
    }
}

/// The word that carries `value` as a signed number, for a value a signed word can hold.
pub open spec fn signed_word(value: int) -> int
    recommends
        -32768 <= value <= 32767,
{
    if value >= 0 {
        value
    } else {
        value + 65536
    }
}

/// `value` moved to the nearest point of the interval from `low` to `high`.
pub open spec fn clamped(value: int, low: int, high: int) -> int
    recommends
        low <= high,
{
    if value < low {
        low
    } else if value > high {
        high
    } else {
        value
    }
}

/// Joins two consecutive registers into one 32-bit count.
pub fn pair32(high: u16, low: u16) -> (count: u32)
    ensures
        count == pair_value(high, low),
{
    let h: u32 = high as u32;
    let l: u32 = low as u32;
    assert((h << 16 | l) == h * 65536 + l) by (bit_vector)
        requires
            h < 65536,
            l < 65536,
    ;
    h << 16 | l
}

/// Reads a register as a signed word: the bit pattern is kept, not the magnitude.
pub fn signed(raw: u16) -> (value: i16)
    ensures
        value == signed_value(raw),
{
    if raw < 32768 {
        raw as i16
    } else {
        let below: u16 = 65535 - raw;
        -1i16 - (below as i16)
    }
}

/// The register that carries a signed word.
pub fn unsigned(value: i16) -> (raw: u16)
    ensures
        raw == signed_word(value as int),
        signed_value(raw) == value,
{
    if value >= 0 {
        value as u16
    } else {
        let below: i16 = -1i16 - value;
        65535u16 - (below as u16)
    }
}

/// Reads a register as a half-precision number. The pattern is kept whatever it
/// encodes, so that a NaN stays a NaN and is never taken for zero.
pub fn half_precision(raw: u16) -> (h: Half)
    ensures
        h == (Half { bits: raw }),
        h.nan() <==> raw % 0x8000 > 0x7C00,
{
    Half::from_bits(raw)
}

/// Reads a register as a flag: set exactly when the register holds 1.
pub fn flag(raw: u16) -> (set: bool)
    ensures
        set == (raw == 1),
{
    raw == 1
}

/// The register that carries a flag.
pub fn flag_word(set: bool) -> (raw: u16)
    ensures
        raw == if set { 1int } else { 0int },
{
    if set {
        1
    } else {
        0
    }
}

/// Reads a register as a bus address: the low byte of the register.
pub fn low_byte(raw: u16) -> (byte: u8)
    ensures
        byte == raw % 256,
{
    (raw % 256) as u8
}

/// The register word nearest to `value`.
pub fn clamp_to_word(value: i64) -> (raw: u16)
    ensures
        raw == clamped(value as int, 0, 65535),
{
    if value < 0 {
        0
    } else if value > 65535 {
        65535
    } else {
        value as u16
    }
}

/// Reading a signed word back from the register that carries it gives the same number,
/// and writing back what was read gives the same register.
pub proof fn lemma_signed_round_trip(raw: u16, value: int)
    requires
        -32768 <= value <= 32767,
    ensures
        signed_word(signed_value(raw)) == raw,
        0 <= signed_word(value) <= 65535,
        signed_value(signed_word(value) as u16) == value,
{
}

/// A register pair carries every 32-bit count, and no two pairs carry the same one.
pub proof fn lemma_pair_value_is_injective(h1: u16, l1: u16, h2: u16, l2: u16)
    requires
        pair_value(h1, l1) == pair_value(h2, l2),
    ensures
        h1 == h2,
        l1 == l2,
{
}

} // verus!
