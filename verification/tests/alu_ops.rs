//! The arithmetic and logic operations and their flag semantics.

use gbcore::alu;
use gbcore::registers::Flags;

fn no_flags() -> Flags {
    Flags { zero: false, subtract: false, half_carry: false, carry: false }
}

#[test]
fn add_carries_out_of_the_low_nibble() {
    let (result, f) = alu::add8(0x0F, 0x01, false);
    assert_eq!(result, 0x10);
    assert!(f.half_carry);
    assert!(!f.carry);
    assert!(!f.zero);
    assert!(!f.subtract);
}

#[test]
fn add_wraps_to_zero() {
    let (result, f) = alu::add8(0xFF, 0x01, false);
    assert_eq!(result, 0x00);
    assert!(f.zero);
    assert!(f.carry);
    assert!(f.half_carry);
    assert!(!f.subtract);
}

#[test]
fn add_with_incoming_carry() {
    let (result, f) = alu::add8(0x00, 0x00, true);
    assert_eq!(result, 0x01);
    assert!(!f.zero && !f.carry && !f.half_carry && !f.subtract);

    // The incoming carry participates in both carry computations.
    let (result, f) = alu::add8(0xFF, 0x00, true);
    assert_eq!(result, 0x00);
    assert!(f.zero && f.carry && f.half_carry);
}

#[test]
fn inc_wraps_with_zero_and_half_carry() {
    let (result, f) = alu::inc8(0xFF, no_flags());
    assert_eq!(result, 0x00);
    assert!(f.zero);
    assert!(f.half_carry);
    assert!(!f.subtract);
}

#[test]
fn inc_without_nibble_carry() {
    let (result, f) = alu::inc8(0x0E, no_flags());
    assert_eq!(result, 0x0F);
    assert!(!f.half_carry);
    assert!(!f.zero);
}

#[test]
fn inc_preserves_the_carry_flag() {
    let carry_set = Flags { carry: true, ..no_flags() };
    let (_, f) = alu::inc8(0x05, carry_set);
    assert!(f.carry);
    let (_, f) = alu::inc8(0x05, no_flags());
    assert!(!f.carry);
}

#[test]
fn dec_to_zero_sets_zero_and_subtract() {
    let (result, f) = alu::dec8(0x01, no_flags());
    assert_eq!(result, 0x00);
    assert!(f.zero);
    assert!(f.subtract);
    assert!(!f.half_carry);
}

#[test]
fn dec_borrows_out_of_the_low_nibble() {
    let (result, f) = alu::dec8(0x10, no_flags());
    assert_eq!(result, 0x0F);
    assert!(f.half_carry);
    let (result, f) = alu::dec8(0x00, no_flags());
    assert_eq!(result, 0xFF);
    assert!(f.half_carry);
    assert!(!f.zero);
}

#[test]
fn dec_preserves_the_carry_flag() {
    let carry_set = Flags { carry: true, ..no_flags() };
    let (_, f) = alu::dec8(0x05, carry_set);
    assert!(f.carry);
}

#[test]
fn or_combines_and_clears_other_flags() {
    let (result, f) = alu::or8(0xF0, 0x0F);
    assert_eq!(result, 0xFF);
    assert!(!f.zero && !f.subtract && !f.half_carry && !f.carry);
    let (result, f) = alu::or8(0x00, 0x00);
    assert_eq!(result, 0x00);
    assert!(f.zero);
}

#[test]
fn xor_combines_and_clears_other_flags() {
    let (result, f) = alu::xor8(0xFF, 0x0F);
    assert_eq!(result, 0xF0);
    assert!(!f.zero);
    let (result, f) = alu::xor8(0xAA, 0xAA);
    assert_eq!(result, 0x00);
    assert!(f.zero && !f.subtract && !f.half_carry && !f.carry);
}

#[test]
fn cp_follows_subtraction_rules() {
    let f = alu::cp8(0x42, 0x42);
    assert!(f.zero && f.subtract && !f.half_carry && !f.carry);

    // Smaller accumulator: a full borrow.
    let f = alu::cp8(0x10, 0x20);
    assert!(!f.zero && f.subtract && f.carry);

    // Nibble borrow only.
    let f = alu::cp8(0x20, 0x0F);
    assert!(!f.carry && f.half_carry);
}

#[test]
fn rotate_left_through_carry() {
    let (result, f) = alu::rl8(0x80, false);
    assert_eq!(result, 0x00);
    assert!(f.carry);
    assert!(!f.zero && !f.subtract && !f.half_carry);

    let (result, f) = alu::rl8(0x40, true);
    assert_eq!(result, 0x81);
    assert!(!f.carry);
}

#[test]
fn rotate_right_through_carry() {
    let (result, f) = alu::rr8(0x01, false);
    assert_eq!(result, 0x00);
    assert!(f.carry);
    assert!(!f.zero && !f.subtract && !f.half_carry);

    let (result, f) = alu::rr8(0x00, true);
    assert_eq!(result, 0x80);
    assert!(!f.carry);
}
