//! The 8-bit arithmetic and logic operations together with their exact flag
//! semantics: addition (with optional incoming carry), increment, decrement,
//! bitwise OR and XOR against the accumulator, compare, and the two
//! rotate-through-carry operations. Each is a total function from plain
//! values to a result byte and a full flag set, so the execution engine and
//! any test can use them independently of the fetch loop.
//!
//! Half-carry is always computed from the operands themselves (nibble carry
//! or borrow out of bit 3), never from the already-combined result.

use vstd::prelude::*;

use crate::registers::Flags;

verus! {

/// The amount an incoming carry contributes to a sum.
pub open spec fn carry_in(carry: bool) -> int {
    if carry {
        1int
    } else {
        0int
    }
}

/// The result byte of an 8-bit addition: the low eight bits of
/// accumulator + operand + incoming carry.
pub open spec fn spec_add_result(a: u8, value: u8, carry: bool) -> u8 {
    ((a + value + carry_in(carry)) % 256) as u8
}

/// The flags of an 8-bit addition: `zero` iff the result byte is 0,
/// `subtract` false, `half_carry` iff the low nibbles (plus incoming carry)
/// sum past 15, `carry` iff the full unsigned sum exceeds 255.
pub open spec fn spec_add_flags(a: u8, value: u8, carry: bool) -> Flags {
    Flags {
        zero: spec_add_result(a, value, carry) == 0,
        subtract: false,
        half_carry: a % 16 + value % 16 + carry_in(carry) > 15,
        carry: a + value + carry_in(carry) > 255,
    }
}

/// Adds an operand (and, for the carry variant, the incoming carry flag) to
/// the accumulator.
pub fn add8(a: u8, value: u8, carry: bool) -> (r: (u8, Flags))
    ensures
        r.0 == spec_add_result(a, value, carry),
        r.1 == spec_add_flags(a, value, carry),
{
    let c: u16 = if carry {
        1
    } else {
        0
    };
    let sum: u16 = (a as u16) + (value as u16) + c;
    let result: u8 = (sum % 256) as u8;
    let flags = Flags {
        zero: result == 0,
        subtract: false,
        half_carry: a % 16 + value % 16 + (c as u8) > 15,
        carry: sum > 255,
    };
    (result, flags)
}

/// The result byte of an increment: the operand plus one, wrapping.
pub open spec fn spec_inc_result(value: u8) -> u8 {
    value.wrapping_add(1)
}

/// The flags after an increment: `zero` iff the result is 0, `subtract`
/// false, `half_carry` iff the operand's low nibble was 0xF (the increment
/// carries out of bit 3), `carry` left as it was.
pub open spec fn spec_inc_flags(value: u8, f: Flags) -> Flags {
    Flags {
        zero: spec_inc_result(value) == 0,
        subtract: false,
        half_carry: value % 16 == 15,
        carry: f.carry,
    }
}

/// Increments a byte operand, keeping the carry flag untouched.
pub fn inc8(value: u8, f: Flags) -> (r: (u8, Flags))
    ensures
        r.0 == spec_inc_result(value),
        r.1 == spec_inc_flags(value, f),
{
    let result = value.wrapping_add(1);
    (
        result,
        Flags { zero: result == 0, subtract: false, half_carry: value % 16 == 15, carry: f.carry },
    )
}

/// The result byte of a decrement: the operand minus one, wrapping.
pub open spec fn spec_dec_result(value: u8) -> u8 {
    value.wrapping_sub(1)
}

/// The flags after a decrement: `zero` iff the result is 0, `subtract` true,
/// `half_carry` iff the operand's low nibble was 0x0 (the decrement borrows
/// out of bit 3), `carry` left as it was.
pub open spec fn spec_dec_flags(value: u8, f: Flags) -> Flags {
    Flags {
        zero: spec_dec_result(value) == 0,
        subtract: true,
        half_carry: value % 16 == 0,
        carry: f.carry,
    }
}

/// Decrements a byte operand, keeping the carry flag untouched.
pub fn dec8(value: u8, f: Flags) -> (r: (u8, Flags))
    ensures
        r.0 == spec_dec_result(value),
        r.1 == spec_dec_flags(value, f),
{
    let result = value.wrapping_sub(1);
    (
        result,
        Flags { zero: result == 0, subtract: true, half_carry: value % 16 == 0, carry: f.carry },
    )
}

/// The flags after a bitwise combination: only `zero` can be set.
pub open spec fn spec_logic_flags(result: u8) -> Flags {
    Flags { zero: result == 0, subtract: false, half_carry: false, carry: false }
}

/// Bitwise OR of the accumulator with an operand.
pub fn or8(a: u8, value: u8) -> (r: (u8, Flags))
    ensures
        r.0 == (a | value),
        r.1 == spec_logic_flags(a | value),
{
    let result = a | value;
    (result, Flags { zero: result == 0, subtract: false, half_carry: false, carry: false })
}

/// Bitwise XOR of the accumulator with an operand.
pub fn xor8(a: u8, value: u8) -> (r: (u8, Flags))
    ensures
        r.0 == (a ^ value),
        r.1 == spec_logic_flags(a ^ value),
{
    let result = a ^ value;
    (result, Flags { zero: result == 0, subtract: false, half_carry: false, carry: false })
}

/// The flags of a compare: the operand is subtracted from the accumulator
/// for flag purposes only. `zero` iff the two are equal, `subtract` true,
/// `half_carry` iff the accumulator's low nibble borrows (is smaller than
/// the operand's), `carry` iff the whole accumulator borrows.
pub open spec fn spec_cp_flags(a: u8, value: u8) -> Flags {
    Flags { zero: a == value, subtract: true, half_carry: a % 16 < value % 16, carry: a < value }
}

/// Compares an operand against the accumulator; the accumulator itself is
/// left unchanged, only flags are produced.
pub fn cp8(a: u8, value: u8) -> (r: Flags)
    ensures
        r == spec_cp_flags(a, value),
{
    Flags { zero: a == value, subtract: true, half_carry: a % 16 < value % 16, carry: a < value }
}

/// The byte after a rotate left through carry: each bit moves one place up,
/// and the incoming carry flag fills bit 0.
pub open spec fn spec_rl_result(a: u8, carry: bool) -> u8 {
    ((2 * a) % 256 + carry_in(carry)) as u8
}

/// The flags after a rotate through carry: the bit rotated out becomes the
/// carry flag and every other flag is cleared.
pub open spec fn spec_rotate_flags(bit_out: bool) -> Flags {
    Flags { zero: false, subtract: false, half_carry: false, carry: bit_out }
}

/// Rotates the accumulator left through the carry flag: bit 7 leaves into
/// the carry flag, the old carry enters at bit 0.
pub fn rl8(a: u8, carry: bool) -> (r: (u8, Flags))
    ensures
        r.0 == spec_rl_result(a, carry),
        r.1 == spec_rotate_flags(a >= 0x80),
{
    let low: u8 = if carry {
        1
    } else {
        0
    };
    proof {
        assert((a % 128) * 2 == (2 * a) % 256) by (bit_vector);
        assert((a % 128) * 2 <= 254);
    }
    let result: u8 = (a % 128) * 2 + low;
    (result, Flags { zero: false, subtract: false, half_carry: false, carry: a >= 0x80 })
}

/// The byte after a rotate right through carry: each bit moves one place
/// down, and the incoming carry flag fills bit 7.
pub open spec fn spec_rr_result(a: u8, carry: bool) -> u8 {
    (a / 2 + 128 * carry_in(carry)) as u8
}

/// Rotates the accumulator right through the carry flag: bit 0 leaves into
/// the carry flag, the old carry enters at bit 7.
pub fn rr8(a: u8, carry: bool) -> (r: (u8, Flags))
    ensures
        r.0 == spec_rr_result(a, carry),
        r.1 == spec_rotate_flags(a % 2 == 1),
{
    let high: u8 = if carry {
        128
    } else {
        0
    };
    let result: u8 = a / 2 + high;
    (result, Flags { zero: false, subtract: false, half_carry: false, carry: a % 2 == 1 })
}

} // verus!
