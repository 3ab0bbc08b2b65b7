use morningstar::binary16::Half;
use morningstar::prostar_mppt::register::clamp_to_word;
use morningstar::prostar_mppt::register::flag;
use morningstar::prostar_mppt::register::flag_word;
use morningstar::prostar_mppt::register::half_precision;
use morningstar::prostar_mppt::register::low_byte;
use morningstar::prostar_mppt::register::pair32;
use morningstar::prostar_mppt::register::signed;
use morningstar::prostar_mppt::register::unsigned;

#[test]
fn pair_puts_the_first_register_on_top() {
    assert_eq!(pair32(0x0001, 0x0002), 0x0001_0002);
    assert_eq!(pair32(0, 0), 0);
    assert_eq!(pair32(0xFFFF, 0xFFFF), 0xFFFF_FFFF);
    assert_eq!(pair32(0x1234, 0x5678), 0x1234_5678);
    assert_eq!(pair32(0, 0xFFFF), 65535);
    assert_eq!(pair32(1, 0), 65536);
}

#[test]
fn signed_temperature_setting() {
    assert_eq!(signed(0xFF00), -256);
}

#[test]
fn signed_keeps_the_bit_pattern() {
    assert_eq!(signed(0), 0);
    assert_eq!(signed(0x7FFF), 32767);
    assert_eq!(signed(0x8000), -32768);
    assert_eq!(signed(0xFFFF), -1);
    assert_eq!(signed(0xFF80), -128);
}

#[test]
fn unsigned_is_the_way_back() {
    assert_eq!(unsigned(-256), 0xFF00);
    assert_eq!(unsigned(-1), 0xFFFF);
    assert_eq!(unsigned(-32768), 0x8000);
    assert_eq!(unsigned(32767), 0x7FFF);
    assert_eq!(unsigned(0), 0);
    for raw in 0..=u16::MAX {
        assert_eq!(unsigned(signed(raw)), raw);
        assert_eq!(signed(raw), raw as i16);
    }
}

#[test]
fn half_register_keeps_its_pattern() {
    assert_eq!(half_precision(0x4C60), Half::from_bits(0x4C60));
    assert_eq!(half_precision(0xC000), Half::from_bits(0xC000));
    for raw in 0..=u16::MAX {
        assert_eq!(half_precision(raw).to_bits(), raw);
    }
}

#[test]
fn a_nan_register_is_not_taken_for_zero() {
    assert_eq!(half_precision(0x7E00), Half::from_bits(0x7E00));
    assert!(half_precision(0x7E00).is_nan());
    assert!(!half_precision(0x0000).is_nan());
    assert_ne!(half_precision(0x7E00), half_precision(0x0000));
    assert_ne!(half_precision(0x7C01), half_precision(0x0000));
    assert_ne!(half_precision(0xFFFF), half_precision(0x8000));
}

#[test]
fn flag_is_set_only_by_one() {
    assert!(flag(1));
    assert!(!flag(0));
    assert!(!flag(2));
    assert!(!flag(0xFFFF));
    assert_eq!(flag_word(true), 1);
    assert_eq!(flag_word(false), 0);
}

#[test]
fn bus_address_is_the_low_byte() {
    assert_eq!(low_byte(1), 1);
    assert_eq!(low_byte(247), 247);
    assert_eq!(low_byte(0x0100), 0);
    assert_eq!(low_byte(0x01FF), 255);
}

#[test]
fn clamp_stops_at_both_ends_of_a_word() {
    assert_eq!(clamp_to_word(-1), 0);
    assert_eq!(clamp_to_word(i64::MIN), 0);
    assert_eq!(clamp_to_word(0), 0);
    assert_eq!(clamp_to_word(65535), 65535);
    assert_eq!(clamp_to_word(65536), 65535);
    assert_eq!(clamp_to_word(i64::MAX), 65535);
    assert_eq!(clamp_to_word(1234), 1234);
}
