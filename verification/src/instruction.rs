//! The instruction set as a closed tagged union, and the decoder from one
//! opcode byte to an instruction. The decoder distinguishes two undecoded
//! outcomes: a byte in the fixed reserved-opcode set is `Illegal` (a normal,
//! expected terminal condition), while a byte the table simply does not hold
//! yet is `Unimplemented` (a gap to fill, reported distinctly so that growing
//! the table is observable).

use vstd::prelude::*;

verus! {

/// One decoded instruction: a closed union over the opcode families. Every
/// representable variant has defined execution semantics.
#[derive(Clone, Copy, PartialEq, Eq, Structural, Debug)]
pub enum Instruction {
    Nop,
    Add(ArithmeticTarget),
    Inc(IncDecType),
    Dec(IncDecType),
    Jp(Jump),
    Jr(JumpRelative),
    Ld(LoadType),
    Di,
    Adc(ArithmeticTarget),
    Xor(ArithmeticTarget),
    Rra,
    Rla,
    Or(ArithmeticTarget),
    Cp(ArithmeticTarget),
}

/// Where an 8-bit arithmetic operand comes from: a named register, the byte
/// addressed by HL, or the immediate byte after the opcode.
#[derive(Clone, Copy, PartialEq, Eq, Structural, Debug)]
pub enum ArithmeticTarget {
    A,
    B,
    C,
    D,
    E,
    H,
    L,
    HLA,
    Immediate,
}

/// Whether an increment or decrement works on a byte cell or a 16-bit word.
#[derive(Clone, Copy, PartialEq, Eq, Structural, Debug)]
pub enum IncDecType {
    Byte(IncDecByteTarget),
    Word(IncDecWordTarget),
}

/// The byte cell an increment or decrement works on: a named register or the
/// byte addressed by HL (a read-modify-write access).
#[derive(Clone, Copy, PartialEq, Eq, Structural, Debug)]
pub enum IncDecByteTarget {
    A,
    B,
    D,
    C,
    E,
    L,
    H,
    HLA,
}

/// The 16-bit word an increment or decrement works on.
#[derive(Clone, Copy, PartialEq, Eq, Structural, Debug)]
pub enum IncDecWordTarget {
    BC,
    DE,
    HL,
    SP,
}

/// An absolute jump: unconditional to a target, or conditional on a flag (the
/// conditional form always takes an immediate word target).
#[derive(Clone, Copy, PartialEq, Eq, Structural, Debug)]
pub enum Jump {
    Conditional(JumpCondition),
    Always(JumpTarget),
}

/// A relative jump by a signed 8-bit displacement, unconditional or
/// conditional on a flag.
#[derive(Clone, Copy, PartialEq, Eq, Structural, Debug)]
pub enum JumpRelative {
    Conditional(JumpCondition),
    Always,
}

/// The four flag conditions a jump can branch on.
#[derive(Clone, Copy, PartialEq, Eq, Structural, Debug)]
pub enum JumpCondition {
    NotZero,
    NotCarry,
    Zero,
    Carry,
}

/// Where an absolute jump's target comes from: the immediate word after the
/// opcode, or the current value of the HL pair.
#[derive(Clone, Copy, PartialEq, Eq, Structural, Debug)]
pub enum JumpTarget {
    Immediate,
    HLA,
}

/// A load: one byte from a source to a target, or an immediate word into a
/// register pair or the stack pointer.
#[derive(Clone, Copy, PartialEq, Eq, Structural, Debug)]
pub enum LoadType {
    Byte(LoadByteTarget, LoadByteSource),
    Word(LoadWordSource),
}

/// Where a byte load reads from: a named register, the immediate byte, the
/// byte at an immediate address, the byte at 0xFF00 + C, the byte addressed
/// by a register pair, or the byte addressed by HL with HL incremented
/// (`HLIA`) or decremented (`HLDA`) afterwards.
#[derive(Clone, Copy, PartialEq, Eq, Structural, Debug)]
pub enum LoadByteSource {
    A,
    B,
    C,
    D,
    E,
    H,
    L,
    Immediate,
    ImmediateAddress,
    CA,
    BCA,
    DEA,
    HLA,
    HLIA,
    HLDA,
}

/// Where a byte load writes to: a named register, the byte at an immediate
/// address, the byte addressed by a register pair, or the byte addressed by
/// HL with HL incremented (`HLIA`) or decremented (`HLDA`) afterwards. Each
/// named register maps one-to-one onto its own cell.
#[derive(Clone, Copy, PartialEq, Eq, Structural, Debug)]
pub enum LoadByteTarget {
    A,
    B,
    C,
    D,
    E,
    H,
    L,
    ImmediateAddress,
    BCA,
    DEA,
    HLA,
    HLIA,
    HLDA,
}

/// The destination of a 16-bit immediate load.
#[derive(Clone, Copy, PartialEq, Eq, Structural, Debug)]
pub enum LoadWordSource {
    BC,
    DE,
    HL,
    SP,
}

/// The decoder's outcome for one opcode byte.
#[derive(Clone, Copy, PartialEq, Eq, Structural, Debug)]
pub enum Decoded {
    /// The byte encodes this instruction.
    Known(Instruction),
    /// The byte is one of the reserved opcodes: recognized, and recognized to
    /// be no instruction at all.
    Illegal,
    /// The byte is not in the table yet: a development-time gap, distinct
    /// from the reserved case.
    Unimplemented,
}

/// The fixed reserved-opcode set: bytes the instruction set deliberately
/// leaves unassigned.
pub open spec fn is_reserved(byte: u8) -> bool {
    ||| byte == 0xD3
    ||| byte == 0xDB
    ||| byte == 0xDC
    ||| byte == 0xE3
    ||| byte == 0xE4
    ||| byte == 0xEB
    ||| byte == 0xEC
    ||| byte == 0xED
    ||| byte == 0xF4
    ||| byte == 0xFC
    ||| byte == 0xFD
}

/// The opcode table: what each byte decodes to.
pub open spec fn spec_decode(byte: u8) -> Decoded {
    match byte {
        0x00 => Decoded::Known(Instruction::Nop),
        0x01 => Decoded::Known(Instruction::Ld(LoadType::Word(LoadWordSource::BC))),
        0x02 => Decoded::Known(
            Instruction::Ld(LoadType::Byte(LoadByteTarget::BCA, LoadByteSource::A)),
        ),
        0x03 => Decoded::Known(Instruction::Inc(IncDecType::Word(IncDecWordTarget::BC))),
        0x04 => Decoded::Known(Instruction::Inc(IncDecType::Byte(IncDecByteTarget::B))),
        0x05 => Decoded::Known(Instruction::Dec(IncDecType::Byte(IncDecByteTarget::B))),
        0x06 => Decoded::Known(
            Instruction::Ld(LoadType::Byte(LoadByteTarget::B, LoadByteSource::Immediate)),
        ),
        0x0A => Decoded::Known(
            Instruction::Ld(LoadType::Byte(LoadByteTarget::A, LoadByteSource::BCA)),
        ),
        0x0B => Decoded::Known(Instruction::Dec(IncDecType::Word(IncDecWordTarget::BC))),
        0x0C => Decoded::Known(Instruction::Inc(IncDecType::Byte(IncDecByteTarget::C))),
        0x0E => Decoded::Known(
            Instruction::Ld(LoadType::Byte(LoadByteTarget::C, LoadByteSource::Immediate)),
        ),
        0x11 => Decoded::Known(Instruction::Ld(LoadType::Word(LoadWordSource::DE))),
        0x12 => Decoded::Known(
            Instruction::Ld(LoadType::Byte(LoadByteTarget::DEA, LoadByteSource::A)),
        ),
        0x13 => Decoded::Known(Instruction::Inc(IncDecType::Word(IncDecWordTarget::DE))),
        0x14 => Decoded::Known(Instruction::Inc(IncDecType::Byte(IncDecByteTarget::D))),
        0x15 => Decoded::Known(Instruction::Dec(IncDecType::Byte(IncDecByteTarget::D))),
        0x16 => Decoded::Known(
            Instruction::Ld(LoadType::Byte(LoadByteTarget::D, LoadByteSource::Immediate)),
        ),
        0x17 => Decoded::Known(Instruction::Rla),
        0x18 => Decoded::Known(Instruction::Jr(JumpRelative::Always)),
        0x1A => Decoded::Known(
            Instruction::Ld(LoadType::Byte(LoadByteTarget::A, LoadByteSource::DEA)),
        ),
        0x1B => Decoded::Known(Instruction::Dec(IncDecType::Word(IncDecWordTarget::DE))),
        0x1C => Decoded::Known(Instruction::Inc(IncDecType::Byte(IncDecByteTarget::E))),
        0x1E => Decoded::Known(
            Instruction::Ld(LoadType::Byte(LoadByteTarget::E, LoadByteSource::Immediate)),
        ),
        0x1F => Decoded::Known(Instruction::Rra),
        0x20 => Decoded::Known(Instruction::Jr(JumpRelative::Conditional(JumpCondition::NotZero))),
        0x21 => Decoded::Known(Instruction::Ld(LoadType::Word(LoadWordSource::HL))),
        0x22 => Decoded::Known(
            Instruction::Ld(LoadType::Byte(LoadByteTarget::HLIA, LoadByteSource::A)),
        ),
        0x23 => Decoded::Known(Instruction::Inc(IncDecType::Word(IncDecWordTarget::HL))),
        0x24 => Decoded::Known(Instruction::Inc(IncDecType::Byte(IncDecByteTarget::H))),
        0x25 => Decoded::Known(Instruction::Dec(IncDecType::Byte(IncDecByteTarget::H))),
        0x26 => Decoded::Known(
            Instruction::Ld(LoadType::Byte(LoadByteTarget::H, LoadByteSource::Immediate)),
        ),
        0x28 => Decoded::Known(Instruction::Jr(JumpRelative::Conditional(JumpCondition::Zero))),
        0x2A => Decoded::Known(
            Instruction::Ld(LoadType::Byte(LoadByteTarget::A, LoadByteSource::HLIA)),
        ),
        0x2B => Decoded::Known(Instruction::Dec(IncDecType::Word(IncDecWordTarget::HL))),
        0x2C => Decoded::Known(Instruction::Inc(IncDecType::Byte(IncDecByteTarget::L))),
        0x2E => Decoded::Known(
            Instruction::Ld(LoadType::Byte(LoadByteTarget::L, LoadByteSource::Immediate)),
        ),
        0x30 => Decoded::Known(Instruction::Jr(JumpRelative::Conditional(JumpCondition::NotCarry))),
        0x31 => Decoded::Known(Instruction::Ld(LoadType::Word(LoadWordSource::SP))),
        0x32 => Decoded::Known(
            Instruction::Ld(LoadType::Byte(LoadByteTarget::HLDA, LoadByteSource::A)),
        ),
        0x33 => Decoded::Known(Instruction::Inc(IncDecType::Word(IncDecWordTarget::SP))),
        0x34 => Decoded::Known(Instruction::Inc(IncDecType::Byte(IncDecByteTarget::HLA))),
        0x35 => Decoded::Known(Instruction::Dec(IncDecType::Byte(IncDecByteTarget::HLA))),
        0x36 => Decoded::Known(
            Instruction::Ld(LoadType::Byte(LoadByteTarget::HLA, LoadByteSource::Immediate)),
        ),
        0x38 => Decoded::Known(Instruction::Jr(JumpRelative::Conditional(JumpCondition::Carry))),
        0x3A => Decoded::Known(
            Instruction::Ld(LoadType::Byte(LoadByteTarget::A, LoadByteSource::HLDA)),
        ),
        0x3B => Decoded::Known(Instruction::Dec(IncDecType::Word(IncDecWordTarget::SP))),
        0x3C => Decoded::Known(Instruction::Inc(IncDecType::Byte(IncDecByteTarget::A))),
        0x3E => Decoded::Known(
            Instruction::Ld(LoadType::Byte(LoadByteTarget::A, LoadByteSource::Immediate)),
        ),
        0x40 => Decoded::Known(Instruction::Ld(LoadType::Byte(LoadByteTarget::B, LoadByteSource::B))),
        0x41 => Decoded::Known(Instruction::Ld(LoadType::Byte(LoadByteTarget::B, LoadByteSource::C))),
        0x42 => Decoded::Known(Instruction::Ld(LoadType::Byte(LoadByteTarget::B, LoadByteSource::D))),
        0x43 => Decoded::Known(Instruction::Ld(LoadType::Byte(LoadByteTarget::B, LoadByteSource::E))),
        0x44 => Decoded::Known(Instruction::Ld(LoadType::Byte(LoadByteTarget::B, LoadByteSource::H))),
        0x45 => Decoded::Known(Instruction::Ld(LoadType::Byte(LoadByteTarget::B, LoadByteSource::L))),
        0x46 => Decoded::Known(
            Instruction::Ld(LoadType::Byte(LoadByteTarget::B, LoadByteSource::HLA)),
        ),
        0x47 => Decoded::Known(Instruction::Ld(LoadType::Byte(LoadByteTarget::B, LoadByteSource::A))),
        0x48 => Decoded::Known(Instruction::Ld(LoadType::Byte(LoadByteTarget::C, LoadByteSource::B))),
        0x49 => Decoded::Known(Instruction::Ld(LoadType::Byte(LoadByteTarget::C, LoadByteSource::C))),
        0x4A => Decoded::Known(Instruction::Ld(LoadType::Byte(LoadByteTarget::C, LoadByteSource::D))),
        0x4B => Decoded::Known(Instruction::Ld(LoadType::Byte(LoadByteTarget::C, LoadByteSource::E))),
        0x4C => Decoded::Known(Instruction::Ld(LoadType::Byte(LoadByteTarget::C, LoadByteSource::H))),
        0x4D => Decoded::Known(Instruction::Ld(LoadType::Byte(LoadByteTarget::C, LoadByteSource::L))),
        0x4E => Decoded::Known(
            Instruction::Ld(LoadType::Byte(LoadByteTarget::C, LoadByteSource::HLA)),
        ),
        0x4F => Decoded::Known(Instruction::Ld(LoadType::Byte(LoadByteTarget::C, LoadByteSource::A))),
        0x50 => Decoded::Known(Instruction::Ld(LoadType::Byte(LoadByteTarget::D, LoadByteSource::B))),
        0x51 => Decoded::Known(Instruction::Ld(LoadType::Byte(LoadByteTarget::D, LoadByteSource::C))),
        0x52 => Decoded::Known(Instruction::Ld(LoadType::Byte(LoadByteTarget::D, LoadByteSource::D))),
        0x53 => Decoded::Known(Instruction::Ld(LoadType::Byte(LoadByteTarget::D, LoadByteSource::E))),
        0x54 => Decoded::Known(Instruction::Ld(LoadType::Byte(LoadByteTarget::D, LoadByteSource::H))),
        0x55 => Decoded::Known(Instruction::Ld(LoadType::Byte(LoadByteTarget::D, LoadByteSource::L))),
        0x56 => Decoded::Known(
            Instruction::Ld(LoadType::Byte(LoadByteTarget::D, LoadByteSource::HLA)),
        ),
        0x57 => Decoded::Known(Instruction::Ld(LoadType::Byte(LoadByteTarget::D, LoadByteSource::A))),
        0x58 => Decoded::Known(Instruction::Ld(LoadType::Byte(LoadByteTarget::E, LoadByteSource::B))),
        0x59 => Decoded::Known(Instruction::Ld(LoadType::Byte(LoadByteTarget::E, LoadByteSource::C))),
        0x5A => Decoded::Known(Instruction::Ld(LoadType::Byte(LoadByteTarget::E, LoadByteSource::D))),
        0x5B => Decoded::Known(Instruction::Ld(LoadType::Byte(LoadByteTarget::E, LoadByteSource::E))),
        0x5C => Decoded::Known(Instruction::Ld(LoadType::Byte(LoadByteTarget::E, LoadByteSource::H))),
        0x5D => Decoded::Known(Instruction::Ld(LoadType::Byte(LoadByteTarget::E, LoadByteSource::L))),
        0x5E => Decoded::Known(
            Instruction::Ld(LoadType::Byte(LoadByteTarget::E, LoadByteSource::HLA)),
        ),
        0x5F => Decoded::Known(Instruction::Ld(LoadType::Byte(LoadByteTarget::E, LoadByteSource::A))),
        0x60 => Decoded::Known(Instruction::Ld(LoadType::Byte(LoadByteTarget::H, LoadByteSource::B))),
        0x61 => Decoded::Known(Instruction::Ld(LoadType::Byte(LoadByteTarget::H, LoadByteSource::C))),
        0x62 => Decoded::Known(Instruction::Ld(LoadType::Byte(LoadByteTarget::H, LoadByteSource::D))),
        0x63 => Decoded::Known(Instruction::Ld(LoadType::Byte(LoadByteTarget::H, LoadByteSource::E))),
        0x64 => Decoded::Known(Instruction::Ld(LoadType::Byte(LoadByteTarget::H, LoadByteSource::H))),
        0x65 => Decoded::Known(Instruction::Ld(LoadType::Byte(LoadByteTarget::H, LoadByteSource::L))),
        0x66 => Decoded::Known(
            Instruction::Ld(LoadType::Byte(LoadByteTarget::H, LoadByteSource::HLA)),
        ),
        0x67 => Decoded::Known(Instruction::Ld(LoadType::Byte(LoadByteTarget::H, LoadByteSource::A))),
        0x68 => Decoded::Known(Instruction::Ld(LoadType::Byte(LoadByteTarget::L, LoadByteSource::B))),
        0x69 => Decoded::Known(Instruction::Ld(LoadType::Byte(LoadByteTarget::L, LoadByteSource::C))),
        0x6A => Decoded::Known(Instruction::Ld(LoadType::Byte(LoadByteTarget::L, LoadByteSource::D))),
        0x6B => Decoded::Known(Instruction::Ld(LoadType::Byte(LoadByteTarget::L, LoadByteSource::E))),
        0x6C => Decoded::Known(Instruction::Ld(LoadType::Byte(LoadByteTarget::L, LoadByteSource::H))),
        0x6D => Decoded::Known(Instruction::Ld(LoadType::Byte(LoadByteTarget::L, LoadByteSource::L))),
        0x6E => Decoded::Known(
            Instruction::Ld(LoadType::Byte(LoadByteTarget::L, LoadByteSource::HLA)),
        ),
        0x6F => Decoded::Known(Instruction::Ld(LoadType::Byte(LoadByteTarget::L, LoadByteSource::A))),
        0x70 => Decoded::Known(
            Instruction::Ld(LoadType::Byte(LoadByteTarget::HLA, LoadByteSource::B)),
        ),
        0x71 => Decoded::Known(
            Instruction::Ld(LoadType::Byte(LoadByteTarget::HLA, LoadByteSource::C)),
        ),
        0x72 => Decoded::Known(
            Instruction::Ld(LoadType::Byte(LoadByteTarget::HLA, LoadByteSource::D)),
        ),
        0x73 => Decoded::Known(
            Instruction::Ld(LoadType::Byte(LoadByteTarget::HLA, LoadByteSource::E)),
        ),
        0x74 => Decoded::Known(
            Instruction::Ld(LoadType::Byte(LoadByteTarget::HLA, LoadByteSource::H)),
        ),
        0x75 => Decoded::Known(
            Instruction::Ld(LoadType::Byte(LoadByteTarget::HLA, LoadByteSource::L)),
        ),
        0x77 => Decoded::Known(
            Instruction::Ld(LoadType::Byte(LoadByteTarget::HLA, LoadByteSource::A)),
        ),
        0x78 => Decoded::Known(Instruction::Ld(LoadType::Byte(LoadByteTarget::A, LoadByteSource::B))),
        0x79 => Decoded::Known(Instruction::Ld(LoadType::Byte(LoadByteTarget::A, LoadByteSource::C))),
        0x7A => Decoded::Known(Instruction::Ld(LoadType::Byte(LoadByteTarget::A, LoadByteSource::D))),
        0x7B => Decoded::Known(Instruction::Ld(LoadType::Byte(LoadByteTarget::A, LoadByteSource::E))),
        0x7C => Decoded::Known(Instruction::Ld(LoadType::Byte(LoadByteTarget::A, LoadByteSource::H))),
        0x7D => Decoded::Known(Instruction::Ld(LoadType::Byte(LoadByteTarget::A, LoadByteSource::L))),
        0x7E => Decoded::Known(
            Instruction::Ld(LoadType::Byte(LoadByteTarget::A, LoadByteSource::HLA)),
        ),
        0x7F => Decoded::Known(Instruction::Ld(LoadType::Byte(LoadByteTarget::A, LoadByteSource::A))),
        0x80 => Decoded::Known(Instruction::Add(ArithmeticTarget::B)),
        0x81 => Decoded::Known(Instruction::Add(ArithmeticTarget::C)),
        0x82 => Decoded::Known(Instruction::Add(ArithmeticTarget::D)),
        0x83 => Decoded::Known(Instruction::Add(ArithmeticTarget::E)),
        0x84 => Decoded::Known(Instruction::Add(ArithmeticTarget::H)),
        0x85 => Decoded::Known(Instruction::Add(ArithmeticTarget::L)),
        0x86 => Decoded::Known(Instruction::Add(ArithmeticTarget::HLA)),
        0x87 => Decoded::Known(Instruction::Add(ArithmeticTarget::A)),
        0x88 => Decoded::Known(Instruction::Adc(ArithmeticTarget::B)),
        0x89 => Decoded::Known(Instruction::Adc(ArithmeticTarget::C)),
        0x8A => Decoded::Known(Instruction::Adc(ArithmeticTarget::D)),
        0x8B => Decoded::Known(Instruction::Adc(ArithmeticTarget::E)),
        0x8C => Decoded::Known(Instruction::Adc(ArithmeticTarget::H)),
        0x8D => Decoded::Known(Instruction::Adc(ArithmeticTarget::L)),
        0x8E => Decoded::Known(Instruction::Adc(ArithmeticTarget::HLA)),
        0x8F => Decoded::Known(Instruction::Adc(ArithmeticTarget::A)),
        0xA8 => Decoded::Known(Instruction::Xor(ArithmeticTarget::B)),
        0xA9 => Decoded::Known(Instruction::Xor(ArithmeticTarget::C)),
        0xAA => Decoded::Known(Instruction::Xor(ArithmeticTarget::D)),
        0xAB => Decoded::Known(Instruction::Xor(ArithmeticTarget::E)),
        0xAC => Decoded::Known(Instruction::Xor(ArithmeticTarget::H)),
        0xAD => Decoded::Known(Instruction::Xor(ArithmeticTarget::L)),
        0xAE => Decoded::Known(Instruction::Xor(ArithmeticTarget::HLA)),
        0xAF => Decoded::Known(Instruction::Xor(ArithmeticTarget::A)),
        0xB0 => Decoded::Known(Instruction::Or(ArithmeticTarget::B)),
        0xB1 => Decoded::Known(Instruction::Or(ArithmeticTarget::C)),
        0xB2 => Decoded::Known(Instruction::Or(ArithmeticTarget::D)),
        0xB3 => Decoded::Known(Instruction::Or(ArithmeticTarget::E)),
        0xB4 => Decoded::Known(Instruction::Or(ArithmeticTarget::H)),
        0xB5 => Decoded::Known(Instruction::Or(ArithmeticTarget::L)),
        0xB6 => Decoded::Known(Instruction::Or(ArithmeticTarget::HLA)),
        0xB7 => Decoded::Known(Instruction::Or(ArithmeticTarget::A)),
        0xB8 => Decoded::Known(Instruction::Cp(ArithmeticTarget::B)),
        0xB9 => Decoded::Known(Instruction::Cp(ArithmeticTarget::C)),
        0xBA => Decoded::Known(Instruction::Cp(ArithmeticTarget::D)),
        0xBB => Decoded::Known(Instruction::Cp(ArithmeticTarget::E)),
        0xBC => Decoded::Known(Instruction::Cp(ArithmeticTarget::H)),
        0xBD => Decoded::Known(Instruction::Cp(ArithmeticTarget::L)),
        0xBE => Decoded::Known(Instruction::Cp(ArithmeticTarget::HLA)),
        0xBF => Decoded::Known(Instruction::Cp(ArithmeticTarget::A)),
        0xC2 => Decoded::Known(Instruction::Jp(Jump::Conditional(JumpCondition::NotZero))),
        0xC3 => Decoded::Known(Instruction::Jp(Jump::Always(JumpTarget::Immediate))),
        0xC6 => Decoded::Known(Instruction::Add(ArithmeticTarget::Immediate)),
        0xCA => Decoded::Known(Instruction::Jp(Jump::Conditional(JumpCondition::Zero))),
        0xCE => Decoded::Known(Instruction::Adc(ArithmeticTarget::Immediate)),
        0xD2 => Decoded::Known(Instruction::Jp(Jump::Conditional(JumpCondition::NotCarry))),
        0xD3 => Decoded::Illegal,
        0xDA => Decoded::Known(Instruction::Jp(Jump::Conditional(JumpCondition::Carry))),
        0xDB => Decoded::Illegal,
        0xDC => Decoded::Illegal,
        0xE3 => Decoded::Illegal,
        0xE4 => Decoded::Illegal,
        0xE9 => Decoded::Known(Instruction::Jp(Jump::Always(JumpTarget::HLA))),
        0xEA => Decoded::Known(
            Instruction::Ld(LoadType::Byte(LoadByteTarget::ImmediateAddress, LoadByteSource::A)),
        ),
        0xEB => Decoded::Illegal,
        0xEC => Decoded::Illegal,
        0xED => Decoded::Illegal,
        0xEE => Decoded::Known(Instruction::Xor(ArithmeticTarget::Immediate)),
        0xF2 => Decoded::Known(Instruction::Ld(LoadType::Byte(LoadByteTarget::A, LoadByteSource::CA))),
        0xF3 => Decoded::Known(Instruction::Di),
        0xF4 => Decoded::Illegal,
        0xF6 => Decoded::Known(Instruction::Or(ArithmeticTarget::Immediate)),
        0xFA => Decoded::Known(
            Instruction::Ld(LoadType::Byte(LoadByteTarget::A, LoadByteSource::ImmediateAddress)),
        ),
        0xFC => Decoded::Illegal,
        0xFD => Decoded::Illegal,
        0xFE => Decoded::Known(Instruction::Cp(ArithmeticTarget::Immediate)),
        _ => Decoded::Unimplemented,
    }
}

impl Instruction {
    /// Decodes one opcode byte against the table.
    pub fn from_byte(byte: u8) -> (r: Decoded)
        ensures
            r == spec_decode(byte),
    {
        match byte {
            0x00 => Decoded::Known(Instruction::Nop),
            0x01 => Decoded::Known(Instruction::Ld(LoadType::Word(LoadWordSource::BC))),
            0x02 => Decoded::Known(
                Instruction::Ld(LoadType::Byte(LoadByteTarget::BCA, LoadByteSource::A)),
            ),
            0x03 => Decoded::Known(Instruction::Inc(IncDecType::Word(IncDecWordTarget::BC))),
            0x04 => Decoded::Known(Instruction::Inc(IncDecType::Byte(IncDecByteTarget::B))),
            0x05 => Decoded::Known(Instruction::Dec(IncDecType::Byte(IncDecByteTarget::B))),
            0x06 => Decoded::Known(
                Instruction::Ld(LoadType::Byte(LoadByteTarget::B, LoadByteSource::Immediate)),
            ),
            0x0A => Decoded::Known(
                Instruction::Ld(LoadType::Byte(LoadByteTarget::A, LoadByteSource::BCA)),
            ),
            0x0B => Decoded::Known(Instruction::Dec(IncDecType::Word(IncDecWordTarget::BC))),
            0x0C => Decoded::Known(Instruction::Inc(IncDecType::Byte(IncDecByteTarget::C))),
            0x0E => Decoded::Known(
                Instruction::Ld(LoadType::Byte(LoadByteTarget::C, LoadByteSource::Immediate)),
            ),
            0x11 => Decoded::Known(Instruction::Ld(LoadType::Word(LoadWordSource::DE))),
            0x12 => Decoded::Known(
                Instruction::Ld(LoadType::Byte(LoadByteTarget::DEA, LoadByteSource::A)),
            ),
            0x13 => Decoded::Known(Instruction::Inc(IncDecType::Word(IncDecWordTarget::DE))),
            0x14 => Decoded::Known(Instruction::Inc(IncDecType::Byte(IncDecByteTarget::D))),
            0x15 => Decoded::Known(Instruction::Dec(IncDecType::Byte(IncDecByteTarget::D))),
            0x16 => Decoded::Known(
                Instruction::Ld(LoadType::Byte(LoadByteTarget::D, LoadByteSource::Immediate)),
            ),
            0x17 => Decoded::Known(Instruction::Rla),
            0x18 => Decoded::Known(Instruction::Jr(JumpRelative::Always)),
            0x1A => Decoded::Known(
                Instruction::Ld(LoadType::Byte(LoadByteTarget::A, LoadByteSource::DEA)),
            ),
            0x1B => Decoded::Known(Instruction::Dec(IncDecType::Word(IncDecWordTarget::DE))),
            0x1C => Decoded::Known(Instruction::Inc(IncDecType::Byte(IncDecByteTarget::E))),
            0x1E => Decoded::Known(
                Instruction::Ld(LoadType::Byte(LoadByteTarget::E, LoadByteSource::Immediate)),
            ),
            0x1F => Decoded::Known(Instruction::Rra),
            0x20 => Decoded::Known(
                Instruction::Jr(JumpRelative::Conditional(JumpCondition::NotZero)),
            ),
            0x21 => Decoded::Known(Instruction::Ld(LoadType::Word(LoadWordSource::HL))),
            0x22 => Decoded::Known(
                Instruction::Ld(LoadType::Byte(LoadByteTarget::HLIA, LoadByteSource::A)),
            ),
            0x23 => Decoded::Known(Instruction::Inc(IncDecType::Word(IncDecWordTarget::HL))),
            0x24 => Decoded::Known(Instruction::Inc(IncDecType::Byte(IncDecByteTarget::H))),
            0x25 => Decoded::Known(Instruction::Dec(IncDecType::Byte(IncDecByteTarget::H))),
            0x26 => Decoded::Known(
                Instruction::Ld(LoadType::Byte(LoadByteTarget::H, LoadByteSource::Immediate)),
            ),
            0x28 => Decoded::Known(Instruction::Jr(JumpRelative::Conditional(JumpCondition::Zero))),
            0x2A => Decoded::Known(
                Instruction::Ld(LoadType::Byte(LoadByteTarget::A, LoadByteSource::HLIA)),
            ),
            0x2B => Decoded::Known(Instruction::Dec(IncDecType::Word(IncDecWordTarget::HL))),
            0x2C => Decoded::Known(Instruction::Inc(IncDecType::Byte(IncDecByteTarget::L))),
            0x2E => Decoded::Known(
                Instruction::Ld(LoadType::Byte(LoadByteTarget::L, LoadByteSource::Immediate)),
            ),
            0x30 => Decoded::Known(
                Instruction::Jr(JumpRelative::Conditional(JumpCondition::NotCarry)),
            ),
            0x31 => Decoded::Known(Instruction::Ld(LoadType::Word(LoadWordSource::SP))),
            0x32 => Decoded::Known(
                Instruction::Ld(LoadType::Byte(LoadByteTarget::HLDA, LoadByteSource::A)),
            ),
            0x33 => Decoded::Known(Instruction::Inc(IncDecType::Word(IncDecWordTarget::SP))),
            0x34 => Decoded::Known(Instruction::Inc(IncDecType::Byte(IncDecByteTarget::HLA))),
            0x35 => Decoded::Known(Instruction::Dec(IncDecType::Byte(IncDecByteTarget::HLA))),
            0x36 => Decoded::Known(
                Instruction::Ld(LoadType::Byte(LoadByteTarget::HLA, LoadByteSource::Immediate)),
            ),
            0x38 => Decoded::Known(
                Instruction::Jr(JumpRelative::Conditional(JumpCondition::Carry)),
            ),
            0x3A => Decoded::Known(
                Instruction::Ld(LoadType::Byte(LoadByteTarget::A, LoadByteSource::HLDA)),
            ),
            0x3B => Decoded::Known(Instruction::Dec(IncDecType::Word(IncDecWordTarget::SP))),
            0x3C => Decoded::Known(Instruction::Inc(IncDecType::Byte(IncDecByteTarget::A))),
            0x3E => Decoded::Known(
                Instruction::Ld(LoadType::Byte(LoadByteTarget::A, LoadByteSource::Immediate)),
            ),
            0x40 => Decoded::Known(
                Instruction::Ld(LoadType::Byte(LoadByteTarget::B, LoadByteSource::B)),
            ),
            0x41 => Decoded::Known(
                Instruction::Ld(LoadType::Byte(LoadByteTarget::B, LoadByteSource::C)),
            ),
            0x42 => Decoded::Known(
                Instruction::Ld(LoadType::Byte(LoadByteTarget::B, LoadByteSource::D)),
            ),
            0x43 => Decoded::Known(
                Instruction::Ld(LoadType::Byte(LoadByteTarget::B, LoadByteSource::E)),
            ),
            0x44 => Decoded::Known(
                Instruction::Ld(LoadType::Byte(LoadByteTarget::B, LoadByteSource::H)),
            ),
            0x45 => Decoded::Known(
                Instruction::Ld(LoadType::Byte(LoadByteTarget::B, LoadByteSource::L)),
            ),
            0x46 => Decoded::Known(
                Instruction::Ld(LoadType::Byte(LoadByteTarget::B, LoadByteSource::HLA)),
            ),
            0x47 => Decoded::Known(
                Instruction::Ld(LoadType::Byte(LoadByteTarget::B, LoadByteSource::A)),
            ),
            0x48 => Decoded::Known(
                Instruction::Ld(LoadType::Byte(LoadByteTarget::C, LoadByteSource::B)),
            ),
            0x49 => Decoded::Known(
                Instruction::Ld(LoadType::Byte(LoadByteTarget::C, LoadByteSource::C)),
            ),
            0x4A => Decoded::Known(
                Instruction::Ld(LoadType::Byte(LoadByteTarget::C, LoadByteSource::D)),
            ),
            0x4B => Decoded::Known(
                Instruction::Ld(LoadType::Byte(LoadByteTarget::C, LoadByteSource::E)),
            ),
            0x4C => Decoded::Known(
                Instruction::Ld(LoadType::Byte(LoadByteTarget::C, LoadByteSource::H)),
            ),
            0x4D => Decoded::Known(
                Instruction::Ld(LoadType::Byte(LoadByteTarget::C, LoadByteSource::L)),
            ),
            0x4E => Decoded::Known(
                Instruction::Ld(LoadType::Byte(LoadByteTarget::C, LoadByteSource::HLA)),
            ),
            0x4F => Decoded::Known(
                Instruction::Ld(LoadType::Byte(LoadByteTarget::C, LoadByteSource::A)),
            ),
            0x50 => Decoded::Known(
                Instruction::Ld(LoadType::Byte(LoadByteTarget::D, LoadByteSource::B)),
            ),
            0x51 => Decoded::Known(
                Instruction::Ld(LoadType::Byte(LoadByteTarget::D, LoadByteSource::C)),
            ),
            0x52 => Decoded::Known(
                Instruction::Ld(LoadType::Byte(LoadByteTarget::D, LoadByteSource::D)),
            ),
            0x53 => Decoded::Known(
                Instruction::Ld(LoadType::Byte(LoadByteTarget::D, LoadByteSource::E)),
            ),
            0x54 => Decoded::Known(
                Instruction::Ld(LoadType::Byte(LoadByteTarget::D, LoadByteSource::H)),
            ),
            0x55 => Decoded::Known(
                Instruction::Ld(LoadType::Byte(LoadByteTarget::D, LoadByteSource::L)),
            ),
            0x56 => Decoded::Known(
                Instruction::Ld(LoadType::Byte(LoadByteTarget::D, LoadByteSource::HLA)),
            ),
            0x57 => Decoded::Known(
                Instruction::Ld(LoadType::Byte(LoadByteTarget::D, LoadByteSource::A)),
            ),
            0x58 => Decoded::Known(
                Instruction::Ld(LoadType::Byte(LoadByteTarget::E, LoadByteSource::B)),
            ),
            0x59 => Decoded::Known(
                Instruction::Ld(LoadType::Byte(LoadByteTarget::E, LoadByteSource::C)),
            ),
            0x5A => Decoded::Known(
                Instruction::Ld(LoadType::Byte(LoadByteTarget::E, LoadByteSource::D)),
            ),
            0x5B => Decoded::Known(
                Instruction::Ld(LoadType::Byte(LoadByteTarget::E, LoadByteSource::E)),
            ),
            0x5C => Decoded::Known(
                Instruction::Ld(LoadType::Byte(LoadByteTarget::E, LoadByteSource::H)),
            ),
            0x5D => Decoded::Known(
                Instruction::Ld(LoadType::Byte(LoadByteTarget::E, LoadByteSource::L)),
            ),
            0x5E => Decoded::Known(
                Instruction::Ld(LoadType::Byte(LoadByteTarget::E, LoadByteSource::HLA)),
            ),
            0x5F => Decoded::Known(
                Instruction::Ld(LoadType::Byte(LoadByteTarget::E, LoadByteSource::A)),
            ),
            0x60 => Decoded::Known(
                Instruction::Ld(LoadType::Byte(LoadByteTarget::H, LoadByteSource::B)),
            ),
            0x61 => Decoded::Known(
                Instruction::Ld(LoadType::Byte(LoadByteTarget::H, LoadByteSource::C)),
            ),
            0x62 => Decoded::Known(
                Instruction::Ld(LoadType::Byte(LoadByteTarget::H, LoadByteSource::D)),
            ),
            0x63 => Decoded::Known(
                Instruction::Ld(LoadType::Byte(LoadByteTarget::H, LoadByteSource::E)),
            ),
            0x64 => Decoded::Known(
                Instruction::Ld(LoadType::Byte(LoadByteTarget::H, LoadByteSource::H)),
            ),
            0x65 => Decoded::Known(
                Instruction::Ld(LoadType::Byte(LoadByteTarget::H, LoadByteSource::L)),
            ),
            0x66 => Decoded::Known(
                Instruction::Ld(LoadType::Byte(LoadByteTarget::H, LoadByteSource::HLA)),
            ),
            0x67 => Decoded::Known(
                Instruction::Ld(LoadType::Byte(LoadByteTarget::H, LoadByteSource::A)),
            ),
            0x68 => Decoded::Known(
                Instruction::Ld(LoadType::Byte(LoadByteTarget::L, LoadByteSource::B)),
            ),
            0x69 => Decoded::Known(
                Instruction::Ld(LoadType::Byte(LoadByteTarget::L, LoadByteSource::C)),
            ),
            0x6A => Decoded::Known(
                Instruction::Ld(LoadType::Byte(LoadByteTarget::L, LoadByteSource::D)),
            ),
            0x6B => Decoded::Known(
                Instruction::Ld(LoadType::Byte(LoadByteTarget::L, LoadByteSource::E)),
            ),
            0x6C => Decoded::Known(
                Instruction::Ld(LoadType::Byte(LoadByteTarget::L, LoadByteSource::H)),
            ),
            0x6D => Decoded::Known(
                Instruction::Ld(LoadType::Byte(LoadByteTarget::L, LoadByteSource::L)),
            ),
            0x6E => Decoded::Known(
                Instruction::Ld(LoadType::Byte(LoadByteTarget::L, LoadByteSource::HLA)),
            ),
            0x6F => Decoded::Known(
                Instruction::Ld(LoadType::Byte(LoadByteTarget::L, LoadByteSource::A)),
            ),
            0x70 => Decoded::Known(
                Instruction::Ld(LoadType::Byte(LoadByteTarget::HLA, LoadByteSource::B)),
            ),
            0x71 => Decoded::Known(
                Instruction::Ld(LoadType::Byte(LoadByteTarget::HLA, LoadByteSource::C)),
            ),
            0x72 => Decoded::Known(
                Instruction::Ld(LoadType::Byte(LoadByteTarget::HLA, LoadByteSource::D)),
            ),
            0x73 => Decoded::Known(
                Instruction::Ld(LoadType::Byte(LoadByteTarget::HLA, LoadByteSource::E)),
            ),
            0x74 => Decoded::Known(
                Instruction::Ld(LoadType::Byte(LoadByteTarget::HLA, LoadByteSource::H)),
            ),
            0x75 => Decoded::Known(
                Instruction::Ld(LoadType::Byte(LoadByteTarget::HLA, LoadByteSource::L)),
            ),
            0x77 => Decoded::Known(
                Instruction::Ld(LoadType::Byte(LoadByteTarget::HLA, LoadByteSource::A)),
            ),
            0x78 => Decoded::Known(
                Instruction::Ld(LoadType::Byte(LoadByteTarget::A, LoadByteSource::B)),
            ),
            0x79 => Decoded::Known(
                Instruction::Ld(LoadType::Byte(LoadByteTarget::A, LoadByteSource::C)),
            ),
            0x7A => Decoded::Known(
                Instruction::Ld(LoadType::Byte(LoadByteTarget::A, LoadByteSource::D)),
            ),
            0x7B => Decoded::Known(
                Instruction::Ld(LoadType::Byte(LoadByteTarget::A, LoadByteSource::E)),
            ),
            0x7C => Decoded::Known(
                Instruction::Ld(LoadType::Byte(LoadByteTarget::A, LoadByteSource::H)),
            ),
            0x7D => Decoded::Known(
                Instruction::Ld(LoadType::Byte(LoadByteTarget::A, LoadByteSource::L)),
            ),
            0x7E => Decoded::Known(
                Instruction::Ld(LoadType::Byte(LoadByteTarget::A, LoadByteSource::HLA)),
            ),
            0x7F => Decoded::Known(
                Instruction::Ld(LoadType::Byte(LoadByteTarget::A, LoadByteSource::A)),
            ),
            0x80 => Decoded::Known(Instruction::Add(ArithmeticTarget::B)),
            0x81 => Decoded::Known(Instruction::Add(ArithmeticTarget::C)),
            0x82 => Decoded::Known(Instruction::Add(ArithmeticTarget::D)),
            0x83 => Decoded::Known(Instruction::Add(ArithmeticTarget::E)),
            0x84 => Decoded::Known(Instruction::Add(ArithmeticTarget::H)),
            0x85 => Decoded::Known(Instruction::Add(ArithmeticTarget::L)),
            0x86 => Decoded::Known(Instruction::Add(ArithmeticTarget::HLA)),
            0x87 => Decoded::Known(Instruction::Add(ArithmeticTarget::A)),
            0x88 => Decoded::Known(Instruction::Adc(ArithmeticTarget::B)),
            0x89 => Decoded::Known(Instruction::Adc(ArithmeticTarget::C)),
            0x8A => Decoded::Known(Instruction::Adc(ArithmeticTarget::D)),
            0x8B => Decoded::Known(Instruction::Adc(ArithmeticTarget::E)),
            0x8C => Decoded::Known(Instruction::Adc(ArithmeticTarget::H)),
            0x8D => Decoded::Known(Instruction::Adc(ArithmeticTarget::L)),
            0x8E => Decoded::Known(Instruction::Adc(ArithmeticTarget::HLA)),
            0x8F => Decoded::Known(Instruction::Adc(ArithmeticTarget::A)),
            0xA8 => Decoded::Known(Instruction::Xor(ArithmeticTarget::B)),
            0xA9 => Decoded::Known(Instruction::Xor(ArithmeticTarget::C)),
            0xAA => Decoded::Known(Instruction::Xor(ArithmeticTarget::D)),
            0xAB => Decoded::Known(Instruction::Xor(ArithmeticTarget::E)),
            0xAC => Decoded::Known(Instruction::Xor(ArithmeticTarget::H)),
            0xAD => Decoded::Known(Instruction::Xor(ArithmeticTarget::L)),
            0xAE => Decoded::Known(Instruction::Xor(ArithmeticTarget::HLA)),
            0xAF => Decoded::Known(Instruction::Xor(ArithmeticTarget::A)),
            0xB0 => Decoded::Known(Instruction::Or(ArithmeticTarget::B)),
            0xB1 => Decoded::Known(Instruction::Or(ArithmeticTarget::C)),
            0xB2 => Decoded::Known(Instruction::Or(ArithmeticTarget::D)),
            0xB3 => Decoded::Known(Instruction::Or(ArithmeticTarget::E)),
            0xB4 => Decoded::Known(Instruction::Or(ArithmeticTarget::H)),
            0xB5 => Decoded::Known(Instruction::Or(ArithmeticTarget::L)),
            0xB6 => Decoded::Known(Instruction::Or(ArithmeticTarget::HLA)),
            0xB7 => Decoded::Known(Instruction::Or(ArithmeticTarget::A)),
            0xB8 => Decoded::Known(Instruction::Cp(ArithmeticTarget::B)),
            0xB9 => Decoded::Known(Instruction::Cp(ArithmeticTarget::C)),
            0xBA => Decoded::Known(Instruction::Cp(ArithmeticTarget::D)),
            0xBB => Decoded::Known(Instruction::Cp(ArithmeticTarget::E)),
            0xBC => Decoded::Known(Instruction::Cp(ArithmeticTarget::H)),
            0xBD => Decoded::Known(Instruction::Cp(ArithmeticTarget::L)),
            0xBE => Decoded::Known(Instruction::Cp(ArithmeticTarget::HLA)),
            0xBF => Decoded::Known(Instruction::Cp(ArithmeticTarget::A)),
            0xC2 => Decoded::Known(Instruction::Jp(Jump::Conditional(JumpCondition::NotZero))),
            0xC3 => Decoded::Known(Instruction::Jp(Jump::Always(JumpTarget::Immediate))),
            0xC6 => Decoded::Known(Instruction::Add(ArithmeticTarget::Immediate)),
            0xCA => Decoded::Known(Instruction::Jp(Jump::Conditional(JumpCondition::Zero))),
            0xCE => Decoded::Known(Instruction::Adc(ArithmeticTarget::Immediate)),
            0xD2 => Decoded::Known(Instruction::Jp(Jump::Conditional(JumpCondition::NotCarry))),
            0xD3 => Decoded::Illegal,
            0xDA => Decoded::Known(Instruction::Jp(Jump::Conditional(JumpCondition::Carry))),
            0xDB => Decoded::Illegal,
            0xDC => Decoded::Illegal,
            0xE3 => Decoded::Illegal,
            0xE4 => Decoded::Illegal,
            0xE9 => Decoded::Known(Instruction::Jp(Jump::Always(JumpTarget::HLA))),
            0xEA => Decoded::Known(
                Instruction::Ld(
                    LoadType::Byte(LoadByteTarget::ImmediateAddress, LoadByteSource::A),
                ),
            ),
            0xEB => Decoded::Illegal,
            0xEC => Decoded::Illegal,
            0xED => Decoded::Illegal,
            0xEE => Decoded::Known(Instruction::Xor(ArithmeticTarget::Immediate)),
            0xF2 => Decoded::Known(
                Instruction::Ld(LoadType::Byte(LoadByteTarget::A, LoadByteSource::CA)),
            ),
            0xF3 => Decoded::Known(Instruction::Di),
            0xF4 => Decoded::Illegal,
            0xF6 => Decoded::Known(Instruction::Or(ArithmeticTarget::Immediate)),
            0xFA => Decoded::Known(
                Instruction::Ld(
                    LoadType::Byte(LoadByteTarget::A, LoadByteSource::ImmediateAddress),
                ),
            ),
            0xFC => Decoded::Illegal,
            0xFD => Decoded::Illegal,
            0xFE => Decoded::Known(Instruction::Cp(ArithmeticTarget::Immediate)),
            _ => Decoded::Unimplemented,
        }
    }
}

/// A byte decodes to the illegal outcome exactly when it is in the reserved
/// set; every other undecoded byte is reported as unimplemented, a distinct
/// outcome.
pub proof fn lemma_decode_outcomes(byte: u8)
    ensures
        (spec_decode(byte) == Decoded::Illegal) <==> is_reserved(byte),
        (spec_decode(byte) == Decoded::Unimplemented) <==> (!is_reserved(byte) && !(spec_decode(
            byte,
        ) matches Decoded::Known(_))),
{
}

} // verus!
