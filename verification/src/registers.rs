//! The register file: eight 8-bit cells, three of them also addressable as
//! the 16-bit pairs BC, DE and HL, and the four condition flags packed into
//! the top nibble of the F byte. Each pair owns its own two bytes; writing a
//! pair writes exactly its high and low cell and nothing else.

use vstd::prelude::*;

verus! {

/// The four condition flags. In the packed byte, bit 7 is `zero`, bit 6 is
/// `subtract`, bit 5 is `half_carry`, bit 4 is `carry`; the low nibble is
/// always zero.
#[derive(Clone, Copy, PartialEq, Eq, Structural, Debug)]
pub struct Flags {
    pub zero: bool,
    pub subtract: bool,
    pub half_carry: bool,
    pub carry: bool,
}

impl Flags {
    /// The packed byte representation: each flag contributes its bit weight.
    pub open spec fn spec_byte(self) -> u8 {
        ((if self.zero {
            0x80int
        } else {
            0int
        }) + (if self.subtract {
            0x40int
        } else {
            0int
        }) + (if self.half_carry {
            0x20int
        } else {
            0int
        }) + (if self.carry {
            0x10int
        } else {
            0int
        })) as u8
    }

    /// The flag set encoded by a packed byte: one bit per flag, low nibble
    /// ignored.
    pub open spec fn spec_from_byte(byte: u8) -> Flags {
        Flags {
            zero: (byte / 0x80) % 2 == 1,
            subtract: (byte / 0x40) % 2 == 1,
            half_carry: (byte / 0x20) % 2 == 1,
            carry: (byte / 0x10) % 2 == 1,
        }
    }

    pub open spec fn spec_clear() -> Flags {
        Flags { zero: false, subtract: false, half_carry: false, carry: false }
    }

    /// Packs the four flags into one byte, high nibble only.
    pub fn to_byte(self) -> (r: u8)
        ensures
            r == self.spec_byte(),
    {
        (if self.zero {
            0x80u8
        } else {
            0u8
        }) + (if self.subtract {
            0x40u8
        } else {
            0u8
        }) + (if self.half_carry {
            0x20u8
        } else {
            0u8
        }) + (if self.carry {
            0x10u8
        } else {
            0u8
        })
    }

    /// Unpacks a byte into the four flags; the low nibble is discarded.
    pub fn from_byte(byte: u8) -> (r: Flags)
        ensures
            r == Flags::spec_from_byte(byte),
    {
        proof {
            assert(((byte >> 7) & 1 == 1) == ((byte / 0x80) % 2 == 1)) by (bit_vector);
            assert(((byte >> 6) & 1 == 1) == ((byte / 0x40) % 2 == 1)) by (bit_vector);
            assert(((byte >> 5) & 1 == 1) == ((byte / 0x20) % 2 == 1)) by (bit_vector);
            assert(((byte >> 4) & 1 == 1) == ((byte / 0x10) % 2 == 1)) by (bit_vector);
        }
        Flags {
            zero: (byte >> 7) & 1 == 1,
            subtract: (byte >> 6) & 1 == 1,
            half_carry: (byte >> 5) & 1 == 1,
            carry: (byte >> 4) & 1 == 1,
        }
    }

    /// Resets all four flags to false.
    pub fn clear(&mut self)
        ensures
            *final(self) == Flags::spec_clear(),
    {
        self.zero = false;
        self.subtract = false;
        self.half_carry = false;
        self.carry = false;
    }
}

/// Packing then unpacking reproduces the four flags exactly, for every one of
/// the sixteen combinations, and the packed byte's low nibble is always zero.
pub proof fn lemma_flags_round_trip(f: Flags)
    ensures
        Flags::spec_from_byte(f.spec_byte()) == f,
        f.spec_byte() % 16 == 0,
{
}

/// The register file. The cells B and C, D and E, H and L are also read and
/// written as the 16-bit pairs BC, DE and HL (high byte first); each pair is
/// stored in its own two cells, independent of the other pairs.
#[derive(Clone, Copy, PartialEq, Eq, Structural, Debug)]
pub struct Registers {
    pub a: u8,
    pub b: u8,
    pub c: u8,
    pub d: u8,
    pub e: u8,
    pub f: Flags,
    pub h: u8,
    pub l: u8,
}

impl Registers {
    pub open spec fn spec_bc(self) -> u16 {
        (256 * self.b + self.c) as u16
    }

    pub open spec fn spec_de(self) -> u16 {
        (256 * self.d + self.e) as u16
    }

    pub open spec fn spec_hl(self) -> u16 {
        (256 * self.h + self.l) as u16
    }

    pub open spec fn spec_with_bc(self, value: u16) -> Registers {
        Registers { b: (value / 256) as u8, c: (value % 256) as u8, ..self }
    }

    pub open spec fn spec_with_de(self, value: u16) -> Registers {
        Registers { d: (value / 256) as u8, e: (value % 256) as u8, ..self }
    }

    pub open spec fn spec_with_hl(self, value: u16) -> Registers {
        Registers { h: (value / 256) as u8, l: (value % 256) as u8, ..self }
    }

    /// The documented post-boot register values.
    pub open spec fn spec_power_on() -> Registers {
        Registers {
            a: 0x01,
            b: 0x00,
            c: 0x13,
            d: 0x00,
            e: 0xD8,
            f: Flags { zero: true, subtract: false, half_carry: true, carry: true },
            h: 0x01,
            l: 0x4D,
        }
    }

    /// Builds the register file with the documented power-on values
    /// (F starts as the packed byte 0xB0).
    pub fn new() -> (r: Registers)
        ensures
            r == Registers::spec_power_on(),
    {
        Registers {
            a: 0x01,
            f: Flags::from_byte(0xB0),
            b: 0x00,
            c: 0x13,
            d: 0x00,
            e: 0xD8,
            h: 0x01,
            l: 0x4D,
        }
    }

    pub fn get_bc(&self) -> (r: u16)
        ensures
            r == self.spec_bc(),
    {
        256 * (self.b as u16) + (self.c as u16)
    }

    pub fn get_de(&self) -> (r: u16)
        ensures
            r == self.spec_de(),
    {
        256 * (self.d as u16) + (self.e as u16)
    }

    pub fn get_hl(&self) -> (r: u16)
        ensures
            r == self.spec_hl(),
    {
        256 * (self.h as u16) + (self.l as u16)
    }

    pub fn set_bc(&mut self, value: u16)
        ensures
            *final(self) == old(self).spec_with_bc(value),
    {
        self.b = (value / 256) as u8;
        self.c = (value % 256) as u8;
    }

    pub fn set_de(&mut self, value: u16)
        ensures
            *final(self) == old(self).spec_with_de(value),
    {
        self.d = (value / 256) as u8;
        self.e = (value % 256) as u8;
    }

    pub fn set_hl(&mut self, value: u16)
        ensures
            *final(self) == old(self).spec_with_hl(value),
    {
        self.h = (value / 256) as u8;
        self.l = (value % 256) as u8;
    }
}

/// Writing a 16-bit value to a register pair and reading the pair back yields
/// that value; the pair's two cells individually hold its high and low bytes;
/// and no cell outside the pair changes. Stated for BC, DE and HL alike.
pub proof fn lemma_pair_round_trip(r: Registers, value: u16)
    ensures
        r.spec_with_bc(value).spec_bc() == value,
        r.spec_with_bc(value).b == value / 256,
        r.spec_with_bc(value).c == value % 256,
        r.spec_with_bc(value) == (Registers { b: (value / 256) as u8, c: (value % 256) as u8, ..r }),
        r.spec_with_de(value).spec_de() == value,
        r.spec_with_de(value).d == value / 256,
        r.spec_with_de(value).e == value % 256,
        r.spec_with_de(value) == (Registers { d: (value / 256) as u8, e: (value % 256) as u8, ..r }),
        r.spec_with_hl(value).spec_hl() == value,
        r.spec_with_hl(value).h == value / 256,
        r.spec_with_hl(value).l == value % 256,
        r.spec_with_hl(value) == (Registers { h: (value / 256) as u8, l: (value % 256) as u8, ..r }),
{
}

} // verus!
