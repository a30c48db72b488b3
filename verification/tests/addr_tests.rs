//! Exhaustive checks of the address model.

use i2c_adapter::{InvalidAddress, SevenBitAddr, TenBitAddr};

#[test]
fn seven_bit_try_new_accepts_assignable_range() {
    for a in 0x08u8..=0x77 {
        let addr = SevenBitAddr::try_new(a).expect("assignable address rejected");
        assert_eq!(addr.get(), a);
    }
}

#[test]
fn seven_bit_try_new_rejects_over_seven_bits() {
    for a in 0x80u8..=0xFF {
        assert_eq!(SevenBitAddr::try_new(a), Err(InvalidAddress::SevenBitRange(a)));
    }
    assert_eq!(SevenBitAddr::try_new(0xFF), Err(InvalidAddress::SevenBitRange(0xFF)));
}

#[test]
fn seven_bit_try_new_rejects_reserved() {
    for a in 0x00u8..0x08 {
        assert_eq!(SevenBitAddr::try_new(a), Err(InvalidAddress::Reserved(a)));
    }
    for a in 0x78u8..=0x7F {
        assert_eq!(SevenBitAddr::try_new(a), Err(InvalidAddress::Reserved(a)));
    }
}

#[test]
fn seven_bit_unchecked_round_trips_every_value() {
    for a in 0u8..=0xFF {
        assert_eq!(SevenBitAddr::new(a).get(), a);
        assert_eq!(SevenBitAddr(a).0, a);
    }
}

#[test]
fn ten_bit_try_new_accepts_ten_bits() {
    for a in 0u16..=0x3FF {
        let addr = TenBitAddr::try_new(a).expect("in-range address rejected");
        assert_eq!(addr.get(), a);
    }
}

#[test]
fn ten_bit_try_new_rejects_over_ten_bits() {
    for a in 0x400u16..=0x4FF {
        assert_eq!(TenBitAddr::try_new(a), Err(InvalidAddress::TenBitRange(a)));
    }
    assert_eq!(TenBitAddr::try_new(0xFFFF), Err(InvalidAddress::TenBitRange(0xFFFF)));
}

#[test]
fn raw_integer_conversions_round_trip_both_ways() {
    for a in [0u8, 0x08, 0x48, 0x77, 0x7F, 0xFF] {
        assert_eq!(u8::from(SevenBitAddr::from(a)), a);
        assert_eq!(SevenBitAddr::from(u8::from(SevenBitAddr::from(a))), SevenBitAddr(a));
    }
    for a in [0u16, 0x123, 0x3FF, 0x400, 0xFFFF] {
        assert_eq!(u16::from(TenBitAddr::from(a)), a);
        assert_eq!(TenBitAddr::from(u16::from(TenBitAddr::from(a))), TenBitAddr(a));
    }
}

#[test]
fn ten_bit_unchecked_round_trips() {
    for a in [0u16, 1, 0x3FF, 0x400, 0xFFFF] {
        assert_eq!(TenBitAddr::new(a).get(), a);
    }
}
