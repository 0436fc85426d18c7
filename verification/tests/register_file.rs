//! The register file: pair round trips, pair independence, and the packed
//! flag byte.

use gbcore::registers::{Flags, Registers};

#[test]
fn power_on_values() {
    let r = Registers::new();
    assert_eq!(r.a, 0x01);
    assert_eq!(r.b, 0x00);
    assert_eq!(r.c, 0x13);
    assert_eq!(r.d, 0x00);
    assert_eq!(r.e, 0xD8);
    assert_eq!(r.h, 0x01);
    assert_eq!(r.l, 0x4D);
    // F starts as 0xB0: zero, half-carry and carry set, subtract clear.
    assert_eq!(r.f.to_byte(), 0xB0);
}

#[test]
fn bc_round_trips() {
    let mut r = Registers::new();
    r.set_bc(0xBEEF);
    assert_eq!(r.get_bc(), 0xBEEF);
    assert_eq!(r.b, 0xBE);
    assert_eq!(r.c, 0xEF);
}

#[test]
fn de_round_trips() {
    let mut r = Registers::new();
    r.set_de(0x1234);
    assert_eq!(r.get_de(), 0x1234);
    assert_eq!(r.d, 0x12);
    assert_eq!(r.e, 0x34);
}

#[test]
fn hl_round_trips() {
    let mut r = Registers::new();
    r.set_hl(0xC0DE);
    assert_eq!(r.get_hl(), 0xC0DE);
    assert_eq!(r.h, 0xC0);
    assert_eq!(r.l, 0xDE);
}

#[test]
fn pairs_are_independent() {
    let mut r = Registers::new();
    r.set_bc(0x1122);
    r.set_de(0x3344);
    r.set_hl(0x5566);
    assert_eq!(r.get_bc(), 0x1122);
    assert_eq!(r.get_de(), 0x3344);
    assert_eq!(r.get_hl(), 0x5566);
    // And a pair write leaves the accumulator alone.
    assert_eq!(r.a, 0x01);
}

#[test]
fn flags_round_trip_all_sixteen() {
    for bits in 0u8..16 {
        let f = Flags {
            zero: bits & 8 != 0,
            subtract: bits & 4 != 0,
            half_carry: bits & 2 != 0,
            carry: bits & 1 != 0,
        };
        let packed = f.to_byte();
        assert_eq!(packed & 0x0F, 0, "low nibble of {:#04X}", packed);
        let back = Flags::from_byte(packed);
        assert_eq!(back, f);
    }
}

#[test]
fn flag_bit_positions() {
    assert_eq!(
        Flags { zero: true, subtract: false, half_carry: false, carry: false }.to_byte(),
        0x80
    );
    assert_eq!(
        Flags { zero: false, subtract: true, half_carry: false, carry: false }.to_byte(),
        0x40
    );
    assert_eq!(
        Flags { zero: false, subtract: false, half_carry: true, carry: false }.to_byte(),
        0x20
    );
    assert_eq!(
        Flags { zero: false, subtract: false, half_carry: false, carry: true }.to_byte(),
        0x10
    );
}

#[test]
fn from_byte_ignores_low_nibble() {
    let f = Flags::from_byte(0xBF);
    assert_eq!(f.to_byte(), 0xB0);
}

#[test]
fn clear_resets_all_flags() {
    let mut f = Flags::from_byte(0xF0);
    f.clear();
    assert_eq!(f.to_byte(), 0x00);
    assert!(!f.zero && !f.subtract && !f.half_carry && !f.carry);
}
