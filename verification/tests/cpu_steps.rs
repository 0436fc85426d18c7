//! The execution engine: whole fetch-decode-execute cycles, addressing
//! modes, program-counter arithmetic, cycle costs, and the three failure
//! conditions.

use gbcore::cpu::{CPU, StepError};
use gbcore::instruction::{
    ArithmeticTarget, IncDecByteTarget, IncDecType, IncDecWordTarget, Instruction, Jump,
    JumpCondition, JumpRelative, JumpTarget, LoadByteSource, LoadByteTarget, LoadType,
    LoadWordSource,
};

/// A machine whose ROM holds the given bytes starting at the power-on program
/// counter (0x0100).
fn cpu_with_program(bytes: &[u8]) -> CPU {
    let mut image = vec![0u8; 0x0100 + bytes.len()];
    image[0x0100..].copy_from_slice(bytes);
    let mut cpu = CPU::new();
    cpu.load(&image);
    cpu
}

#[test]
fn power_on_state() {
    let cpu = CPU::new();
    assert_eq!(cpu.pc, 0x0100);
    assert_eq!(cpu.sp, 0xFFFE);
    assert_eq!(cpu.registers.a, 0x01);
    assert_eq!(cpu.registers.f.to_byte(), 0xB0);
    assert_eq!(cpu.bus.read_byte(0x0100), 0);
}

#[test]
fn nop_advances_one_byte() {
    let mut cpu = cpu_with_program(&[0x00]);
    assert_eq!(cpu.step(), Ok(()));
    assert_eq!(cpu.pc, 0x0101);
    let (next, cycles) = CPU::new().execute(Instruction::Nop).unwrap();
    assert_eq!(next, 0x0101);
    assert_eq!(cycles, 4);
}

#[test]
fn unconditional_jump_sets_pc_and_costs_sixteen() {
    // JP 0x0050, placed at 0x0100.
    let mut cpu = cpu_with_program(&[0xC3, 0x50, 0x00]);
    assert_eq!(cpu.step(), Ok(()));
    assert_eq!(cpu.pc, 0x0050);

    let mut cpu = cpu_with_program(&[0xC3, 0x50, 0x00]);
    let (next, cycles) = cpu.execute(Instruction::Jp(Jump::Always(JumpTarget::Immediate))).unwrap();
    assert_eq!(next, 0x0050);
    assert_eq!(cycles, 16);
}

#[test]
fn jump_to_hl_uses_the_pair_value() {
    let mut cpu = cpu_with_program(&[0xE9]);
    cpu.registers.set_hl(0x2345);
    assert_eq!(cpu.step(), Ok(()));
    assert_eq!(cpu.pc, 0x2345);
}

#[test]
fn conditional_jump_taken_and_not_taken() {
    // Power-on flags have zero set: JP NZ is not taken, JP Z is.
    let mut cpu = cpu_with_program(&[0xC2, 0x00, 0xC0]);
    let (next, cycles) = cpu
        .execute(Instruction::Jp(Jump::Conditional(JumpCondition::NotZero)))
        .unwrap();
    assert_eq!(next, 0x0103);
    assert_eq!(cycles, 12);

    let mut cpu = cpu_with_program(&[0xCA, 0x00, 0xC0]);
    let (next, cycles) = cpu
        .execute(Instruction::Jp(Jump::Conditional(JumpCondition::Zero)))
        .unwrap();
    assert_eq!(next, 0xC000);
    assert_eq!(cycles, 16);
}

#[test]
fn relative_jump_forward() {
    // JR +5: the displacement is added to the address after the opcode byte.
    let mut cpu = cpu_with_program(&[0x18, 0x05]);
    assert_eq!(cpu.step(), Ok(()));
    assert_eq!(cpu.pc, 0x0106);
}

#[test]
fn relative_jump_backward_sign_extends() {
    // JR -5 (0xFB).
    let mut cpu = cpu_with_program(&[0x18, 0xFB]);
    assert_eq!(cpu.step(), Ok(()));
    assert_eq!(cpu.pc, 0x00FC);
}

#[test]
fn conditional_relative_jump_costs() {
    // Carry is set at power-on: JR C taken, JR NC not taken.
    let mut cpu = cpu_with_program(&[0x38, 0x02]);
    let (next, cycles) = cpu
        .execute(Instruction::Jr(JumpRelative::Conditional(JumpCondition::Carry)))
        .unwrap();
    assert_eq!(next, 0x0103);
    assert_eq!(cycles, 12);

    let mut cpu = cpu_with_program(&[0x30, 0x02]);
    let (next, cycles) = cpu
        .execute(Instruction::Jr(JumpRelative::Conditional(JumpCondition::NotCarry)))
        .unwrap();
    assert_eq!(next, 0x0102);
    assert_eq!(cycles, 8);
}

#[test]
fn add_from_register_updates_accumulator_and_flags() {
    let mut cpu = CPU::new();
    cpu.registers.a = 0x0F;
    cpu.registers.b = 0x01;
    let (next, cycles) = cpu.execute(Instruction::Add(ArithmeticTarget::B)).unwrap();
    assert_eq!(cpu.registers.a, 0x10);
    assert!(cpu.registers.f.half_carry);
    assert!(!cpu.registers.f.carry);
    assert!(!cpu.registers.f.zero);
    assert!(!cpu.registers.f.subtract);
    assert_eq!(next, 0x0101);
    assert_eq!(cycles, 4);
}

#[test]
fn add_immediate_reads_the_byte_after_the_opcode() {
    let mut cpu = cpu_with_program(&[0xC6, 0x01]);
    cpu.registers.a = 0xFF;
    assert_eq!(cpu.step(), Ok(()));
    assert_eq!(cpu.registers.a, 0x00);
    assert!(cpu.registers.f.zero && cpu.registers.f.carry && cpu.registers.f.half_carry);
    assert_eq!(cpu.pc, 0x0102);
}

#[test]
fn add_from_hl_address() {
    let mut cpu = cpu_with_program(&[0x86]);
    cpu.bus.write_byte(0xC010, 0x05);
    cpu.registers.set_hl(0xC010);
    cpu.registers.a = 0x03;
    assert_eq!(cpu.step(), Ok(()));
    assert_eq!(cpu.registers.a, 0x08);
    assert_eq!(cpu.pc, 0x0101);
}

#[test]
fn adc_adds_the_carry_in() {
    let mut cpu = CPU::new();
    cpu.registers.a = 0x10;
    cpu.registers.b = 0x20;
    cpu.registers.f.carry = true;
    cpu.execute(Instruction::Adc(ArithmeticTarget::B)).unwrap();
    assert_eq!(cpu.registers.a, 0x31);
    assert!(!cpu.registers.f.carry);
}

#[test]
fn or_xor_cp_against_registers() {
    let mut cpu = CPU::new();
    cpu.registers.a = 0xF0;
    cpu.registers.c = 0x0F;
    cpu.execute(Instruction::Or(ArithmeticTarget::C)).unwrap();
    assert_eq!(cpu.registers.a, 0xFF);
    assert!(!cpu.registers.f.zero && !cpu.registers.f.carry);

    cpu.registers.d = 0xFF;
    cpu.execute(Instruction::Xor(ArithmeticTarget::D)).unwrap();
    assert_eq!(cpu.registers.a, 0x00);
    assert!(cpu.registers.f.zero);

    cpu.registers.a = 0x10;
    cpu.registers.e = 0x20;
    cpu.execute(Instruction::Cp(ArithmeticTarget::E)).unwrap();
    // The accumulator is unchanged; only flags report the subtraction.
    assert_eq!(cpu.registers.a, 0x10);
    assert!(cpu.registers.f.subtract && cpu.registers.f.carry && !cpu.registers.f.zero);
}

#[test]
fn inc_dec_byte_registers() {
    let mut cpu = CPU::new();
    cpu.registers.b = 0xFF;
    cpu.execute(Instruction::Inc(IncDecType::Byte(IncDecByteTarget::B))).unwrap();
    assert_eq!(cpu.registers.b, 0x00);
    assert!(cpu.registers.f.zero && cpu.registers.f.half_carry && !cpu.registers.f.subtract);
    // The carry flag must survive an increment (power-on carry is set).
    assert!(cpu.registers.f.carry);

    cpu.registers.d = 0x01;
    cpu.execute(Instruction::Dec(IncDecType::Byte(IncDecByteTarget::D))).unwrap();
    assert_eq!(cpu.registers.d, 0x00);
    assert!(cpu.registers.f.zero && cpu.registers.f.subtract);
}

#[test]
fn inc_on_memory_is_read_modify_write() {
    let mut cpu = cpu_with_program(&[0x34]);
    cpu.bus.write_byte(0xC020, 0x0F);
    cpu.registers.set_hl(0xC020);
    assert_eq!(cpu.step(), Ok(()));
    assert_eq!(cpu.bus.read_byte(0xC020), 0x10);
    assert!(cpu.registers.f.half_carry);
    assert_eq!(cpu.pc, 0x0101);

    let mut cpu = cpu_with_program(&[0x34]);
    cpu.registers.set_hl(0xC020);
    let (_, cycles) = cpu
        .execute(Instruction::Inc(IncDecType::Byte(IncDecByteTarget::HLA)))
        .unwrap();
    assert_eq!(cycles, 12);
}

#[test]
fn inc_dec_word_pairs_and_sp() {
    let mut cpu = CPU::new();
    cpu.registers.set_bc(0x00FF);
    cpu.execute(Instruction::Inc(IncDecType::Word(IncDecWordTarget::BC))).unwrap();
    assert_eq!(cpu.registers.get_bc(), 0x0100);

    cpu.registers.set_de(0x0000);
    cpu.execute(Instruction::Dec(IncDecType::Word(IncDecWordTarget::DE))).unwrap();
    assert_eq!(cpu.registers.get_de(), 0xFFFF);

    cpu.registers.set_hl(0xFFFF);
    cpu.execute(Instruction::Inc(IncDecType::Word(IncDecWordTarget::HL))).unwrap();
    assert_eq!(cpu.registers.get_hl(), 0x0000);

    let (_, cycles) = cpu.execute(Instruction::Inc(IncDecType::Word(IncDecWordTarget::SP))).unwrap();
    assert_eq!(cpu.sp, 0xFFFF);
    assert_eq!(cycles, 8);
    cpu.execute(Instruction::Dec(IncDecType::Word(IncDecWordTarget::SP))).unwrap();
    assert_eq!(cpu.sp, 0xFFFE);

    // Word increments leave the flags alone.
    assert_eq!(cpu.registers.f.to_byte(), 0xB0);
}

#[test]
fn rotates_move_through_the_carry_flag() {
    let mut cpu = CPU::new();
    cpu.registers.a = 0x01;
    cpu.registers.f.carry = false;
    cpu.execute(Instruction::Rra).unwrap();
    assert_eq!(cpu.registers.a, 0x00);
    assert!(cpu.registers.f.carry);
    // The old carry re-enters at the top on the next rotate.
    cpu.execute(Instruction::Rra).unwrap();
    assert_eq!(cpu.registers.a, 0x80);
    assert!(!cpu.registers.f.carry);

    cpu.registers.a = 0x80;
    cpu.registers.f.carry = false;
    cpu.execute(Instruction::Rla).unwrap();
    assert_eq!(cpu.registers.a, 0x00);
    assert!(cpu.registers.f.carry);
    cpu.execute(Instruction::Rla).unwrap();
    assert_eq!(cpu.registers.a, 0x01);
    assert!(!cpu.registers.f.carry);
}

#[test]
fn load_into_each_register_changes_only_that_register() {
    // LD r,A for each register target; the source value is distinctive.
    let cases: [(u8, fn(&CPU) -> u8); 6] = [
        (0x47, |c| c.registers.b),
        (0x4F, |c| c.registers.c),
        (0x57, |c| c.registers.d),
        (0x5F, |c| c.registers.e),
        (0x67, |c| c.registers.h),
        (0x6F, |c| c.registers.l),
    ];
    for (opcode, read_target) in cases {
        let mut cpu = cpu_with_program(&[opcode]);
        cpu.registers.a = 0x99;
        let before = cpu.registers;
        assert_eq!(cpu.step(), Ok(()), "opcode {:#04X}", opcode);
        assert_eq!(read_target(&cpu), 0x99, "opcode {:#04X}", opcode);
        // Exactly one register differs from the previous file.
        let mut changed: usize = 0;
        if cpu.registers.a != before.a {
            changed += 1;
        }
        if cpu.registers.b != before.b {
            changed += 1;
        }
        if cpu.registers.c != before.c {
            changed += 1;
        }
        if cpu.registers.d != before.d {
            changed += 1;
        }
        if cpu.registers.e != before.e {
            changed += 1;
        }
        if cpu.registers.h != before.h {
            changed += 1;
        }
        if cpu.registers.l != before.l {
            changed += 1;
        }
        assert_eq!(changed, 1, "opcode {:#04X}", opcode);
    }
}

#[test]
fn load_immediate_byte() {
    let mut cpu = cpu_with_program(&[0x3E, 0x7B]);
    assert_eq!(cpu.step(), Ok(()));
    assert_eq!(cpu.registers.a, 0x7B);
    assert_eq!(cpu.pc, 0x0102);

    let mut cpu = cpu_with_program(&[0x3E, 0x7B]);
    let (_, cycles) = cpu
        .execute(Instruction::Ld(LoadType::Byte(LoadByteTarget::A, LoadByteSource::Immediate)))
        .unwrap();
    assert_eq!(cycles, 8);
}

#[test]
fn load_from_immediate_address() {
    let mut cpu = cpu_with_program(&[0xFA, 0x34, 0xC2]);
    cpu.bus.write_byte(0xC234, 0x5E);
    assert_eq!(cpu.step(), Ok(()));
    assert_eq!(cpu.registers.a, 0x5E);
    assert_eq!(cpu.pc, 0x0103);

    let mut cpu = cpu_with_program(&[0xFA, 0x34, 0xC2]);
    let (_, cycles) = cpu
        .execute(
            Instruction::Ld(LoadType::Byte(LoadByteTarget::A, LoadByteSource::ImmediateAddress)),
        )
        .unwrap();
    assert_eq!(cycles, 16);
}

#[test]
fn load_to_immediate_address() {
    let mut cpu = cpu_with_program(&[0xEA, 0x00, 0xC1]);
    cpu.registers.a = 0x66;
    assert_eq!(cpu.step(), Ok(()));
    assert_eq!(cpu.bus.read_byte(0xC100), 0x66);
    assert_eq!(cpu.pc, 0x0103);
}

#[test]
fn load_through_high_page_c_offset() {
    let mut cpu = cpu_with_program(&[0xF2]);
    cpu.registers.c = 0x85;
    cpu.bus.write_byte(0xFF85, 0x77);
    assert_eq!(cpu.step(), Ok(()));
    assert_eq!(cpu.registers.a, 0x77);
}

#[test]
fn load_through_pairs() {
    let mut cpu = cpu_with_program(&[0x0A]);
    cpu.registers.set_bc(0xC040);
    cpu.bus.write_byte(0xC040, 0x21);
    assert_eq!(cpu.step(), Ok(()));
    assert_eq!(cpu.registers.a, 0x21);

    let mut cpu = cpu_with_program(&[0x12]);
    cpu.registers.set_de(0xC041);
    cpu.registers.a = 0x43;
    assert_eq!(cpu.step(), Ok(()));
    assert_eq!(cpu.bus.read_byte(0xC041), 0x43);
}

#[test]
fn load_auto_increment_and_decrement() {
    // LD A,(HL+): reads, then bumps HL.
    let mut cpu = cpu_with_program(&[0x2A]);
    cpu.registers.set_hl(0xC060);
    cpu.bus.write_byte(0xC060, 0x11);
    assert_eq!(cpu.step(), Ok(()));
    assert_eq!(cpu.registers.a, 0x11);
    assert_eq!(cpu.registers.get_hl(), 0xC061);

    // LD (HL-),A: writes at the old HL, then drops HL.
    let mut cpu = cpu_with_program(&[0x32]);
    cpu.registers.set_hl(0xC070);
    cpu.registers.a = 0x2F;
    assert_eq!(cpu.step(), Ok(()));
    assert_eq!(cpu.bus.read_byte(0xC070), 0x2F);
    assert_eq!(cpu.registers.get_hl(), 0xC06F);
}

#[test]
fn load_word_immediates() {
    let mut cpu = cpu_with_program(&[0x01, 0xCD, 0xAB]);
    assert_eq!(cpu.step(), Ok(()));
    assert_eq!(cpu.registers.get_bc(), 0xABCD);
    assert_eq!(cpu.pc, 0x0103);

    let mut cpu = cpu_with_program(&[0x31, 0x00, 0xD0]);
    assert_eq!(cpu.step(), Ok(()));
    assert_eq!(cpu.sp, 0xD000);

    let mut cpu = cpu_with_program(&[0x21, 0x34, 0x12]);
    let (_, cycles) = cpu
        .execute(Instruction::Ld(LoadType::Word(LoadWordSource::HL)))
        .unwrap();
    assert_eq!(cpu.registers.get_hl(), 0x1234);
    assert_eq!(cycles, 12);
}

#[test]
fn di_is_a_one_byte_step() {
    let mut cpu = cpu_with_program(&[0xF3]);
    assert_eq!(cpu.step(), Ok(()));
    assert_eq!(cpu.pc, 0x0101);
}

#[test]
fn illegal_opcode_reports_address_and_byte() {
    let mut cpu = cpu_with_program(&[0x00, 0xD3]);
    assert_eq!(cpu.step(), Ok(()));
    let r = cpu.step();
    assert_eq!(r, Err(StepError::IllegalOpcode { address: 0x0101, opcode: 0xD3 }));
    // The machine is left where it was.
    assert_eq!(cpu.pc, 0x0101);
}

#[test]
fn unimplemented_opcode_is_distinct_from_illegal() {
    let mut cpu = cpu_with_program(&[0xCB]);
    let r = cpu.step();
    assert_eq!(r, Err(StepError::UnimplementedOpcode { address: 0x0100, opcode: 0xCB }));
    assert_ne!(r, Err(StepError::IllegalOpcode { address: 0x0100, opcode: 0xCB }));
    assert_eq!(cpu.pc, 0x0100);
}

#[test]
fn store_into_a_reserved_window_is_an_invalid_access() {
    // INC (HL) with HL pointing into the unhandled-I/O window: there is no
    // byte cell to modify, and the machine must stop rather than corrupt.
    let mut cpu = cpu_with_program(&[0x34]);
    cpu.registers.set_hl(0xFF00);
    let r = cpu.step();
    assert_eq!(r, Err(StepError::InvalidMutableAccess { address: 0x0100, target: 0xFF00 }));
    assert_eq!(cpu.pc, 0x0100);
    assert_eq!(cpu.registers.get_hl(), 0xFF00);

    // The same through a store: LD (HL),A.
    let mut cpu = cpu_with_program(&[0x77]);
    cpu.registers.set_hl(0xFEA0);
    assert_eq!(
        cpu.step(),
        Err(StepError::InvalidMutableAccess { address: 0x0100, target: 0xFEA0 })
    );
}

#[test]
fn a_small_program_runs_to_its_illegal_terminator() {
    // LD A,0x0F; ADD A,0x01; LD (0xC123),A; then a reserved byte stops it.
    let mut cpu = cpu_with_program(&[0x3E, 0x0F, 0xC6, 0x01, 0xEA, 0x23, 0xC1, 0xD3]);
    let mut steps: usize = 0;
    loop {
        match cpu.step() {
            Ok(()) => steps += 1,
            Err(e) => {
                assert_eq!(e, StepError::IllegalOpcode { address: 0x0107, opcode: 0xD3 });
                break;
            }
        }
    }
    assert_eq!(steps, 3);
    assert_eq!(cpu.registers.a, 0x10);
    assert!(cpu.registers.f.half_carry);
    assert_eq!(cpu.bus.read_byte(0xC123), 0x10);
    // And through the mirror window too.
    assert_eq!(cpu.bus.read_byte(0xE123), 0x10);
}
