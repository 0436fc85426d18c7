//! The decoder: the reserved-opcode set, the unimplemented outcome, and spot
//! checks of the table.

use gbcore::instruction::{
    ArithmeticTarget, Decoded, IncDecByteTarget, IncDecType, Instruction, Jump, JumpCondition,
    JumpRelative, JumpTarget, LoadByteSource, LoadByteTarget, LoadType, LoadWordSource,
};

const RESERVED: [u8; 11] = [0xD3, 0xDB, 0xDC, 0xE3, 0xE4, 0xEB, 0xEC, 0xED, 0xF4, 0xFC, 0xFD];

#[test]
fn every_reserved_opcode_is_illegal() {
    for byte in RESERVED {
        assert_eq!(Instruction::from_byte(byte), Decoded::Illegal, "opcode {:#04X}", byte);
    }
}

#[test]
fn missing_opcodes_are_unimplemented_not_illegal() {
    // Bytes the table does not hold yet; adding one must surface as a
    // distinct outcome, never as the reserved case.
    for byte in [0x07u8, 0x0D, 0x10, 0x27, 0x76, 0x90, 0xA0, 0xC0, 0xCB] {
        let d = Instruction::from_byte(byte);
        assert_eq!(d, Decoded::Unimplemented, "opcode {:#04X}", byte);
        assert_ne!(d, Decoded::Illegal);
    }
}

#[test]
fn every_byte_decodes_to_exactly_one_outcome() {
    let mut known: usize = 0;
    let mut illegal: usize = 0;
    let mut unimplemented: usize = 0;
    for byte in 0..=255u8 {
        match Instruction::from_byte(byte) {
            Decoded::Known(_) => known += 1,
            Decoded::Illegal => illegal += 1,
            Decoded::Unimplemented => unimplemented += 1,
        }
    }
    assert_eq!(illegal, RESERVED.len());
    assert_eq!(known + illegal + unimplemented, 256);
}

#[test]
fn table_spot_checks() {
    assert_eq!(Instruction::from_byte(0x00), Decoded::Known(Instruction::Nop));
    assert_eq!(
        Instruction::from_byte(0xC3),
        Decoded::Known(Instruction::Jp(Jump::Always(JumpTarget::Immediate)))
    );
    assert_eq!(
        Instruction::from_byte(0xE9),
        Decoded::Known(Instruction::Jp(Jump::Always(JumpTarget::HLA)))
    );
    assert_eq!(
        Instruction::from_byte(0x20),
        Decoded::Known(Instruction::Jr(JumpRelative::Conditional(JumpCondition::NotZero)))
    );
    assert_eq!(
        Instruction::from_byte(0x41),
        Decoded::Known(Instruction::Ld(LoadType::Byte(LoadByteTarget::B, LoadByteSource::C)))
    );
    assert_eq!(
        Instruction::from_byte(0x36),
        Decoded::Known(
            Instruction::Ld(LoadType::Byte(LoadByteTarget::HLA, LoadByteSource::Immediate))
        )
    );
    assert_eq!(
        Instruction::from_byte(0x31),
        Decoded::Known(Instruction::Ld(LoadType::Word(LoadWordSource::SP)))
    );
    assert_eq!(
        Instruction::from_byte(0x34),
        Decoded::Known(Instruction::Inc(IncDecType::Byte(IncDecByteTarget::HLA)))
    );
    assert_eq!(
        Instruction::from_byte(0x86),
        Decoded::Known(Instruction::Add(ArithmeticTarget::HLA))
    );
    assert_eq!(
        Instruction::from_byte(0xCE),
        Decoded::Known(Instruction::Adc(ArithmeticTarget::Immediate))
    );
    assert_eq!(
        Instruction::from_byte(0xFE),
        Decoded::Known(Instruction::Cp(ArithmeticTarget::Immediate))
    );
    assert_eq!(
        Instruction::from_byte(0xF2),
        Decoded::Known(Instruction::Ld(LoadType::Byte(LoadByteTarget::A, LoadByteSource::CA)))
    );
    assert_eq!(Instruction::from_byte(0xF3), Decoded::Known(Instruction::Di));
    assert_eq!(Instruction::from_byte(0x17), Decoded::Known(Instruction::Rla));
    assert_eq!(Instruction::from_byte(0x1F), Decoded::Known(Instruction::Rra));
}
