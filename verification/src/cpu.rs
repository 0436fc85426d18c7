//! The execution engine: the program counter, the stack pointer, the register
//! file and the memory bus, driven one fetch-decode-execute cycle at a time.
//! `spec_execute` is the mathematical interpreter: it gives, for any machine
//! state and any representable instruction, the registers and stack pointer
//! afterwards, the single memory write the instruction performs (if any), the
//! next program counter, the cycle cost, and whether the instruction demands
//! a byte cell that has no backing storage. `execute` and `step` are proved
//! against it.

use vstd::prelude::*;

use crate::alu;
use crate::instruction::{
    ArithmeticTarget, Decoded, IncDecByteTarget, IncDecType, IncDecWordTarget, Instruction, Jump,
    JumpCondition, JumpRelative, JumpTarget, LoadByteSource, LoadByteTarget, LoadType,
    LoadWordSource, spec_decode,
};
use crate::memory_bus::{MemoryBus, backed, loaded_len};
use crate::registers::{Flags, Registers};

verus! {

/// Why a step could not complete. The first two name the address of the
/// opcode and the opcode byte itself; the third names the address of the
/// opcode and the target address that has no backing byte cell (an
/// address-map defect, which the driving loop must treat as fatal).
#[derive(Clone, Copy, PartialEq, Eq, Structural, Debug)]
pub enum StepError {
    /// The opcode is one of the reserved opcodes: a normal, expected terminal
    /// condition.
    IllegalOpcode { address: u16, opcode: u8 },
    /// The opcode is not in the decode table yet: a development-time gap with
    /// no defined behaviour to fall back to.
    UnimplementedOpcode { address: u16, opcode: u8 },
    /// A read-modify-write or store instruction addressed a cell in a
    /// reserved window, where no byte exists to take the value.
    InvalidMutableAccess { address: u16, target: u16 },
}

/// Everything one instruction does: the register file and stack pointer
/// afterwards, the one memory write it performs (address and value), the next
/// program counter, the cycle cost, and — instead of all of these — the
/// unbacked target address if the instruction demands a cell that does not
/// exist.
pub ghost struct Effect {
    pub registers: Registers,
    pub sp: u16,
    pub write: Option<(u16, u8)>,
    pub next_pc: u16,
    pub cycles: usize,
    pub fault: Option<u16>,
}

/// Whether the flag condition a conditional jump branches on holds.
pub open spec fn spec_cond(f: Flags, c: JumpCondition) -> bool {
    match c {
        JumpCondition::Carry => f.carry,
        JumpCondition::NotCarry => !f.carry,
        JumpCondition::Zero => f.zero,
        JumpCondition::NotZero => !f.zero,
    }
}

/// A relative jump's displacement byte read as a signed offset, as the 16-bit
/// two's-complement value it adds.
pub open spec fn spec_sign_extend(displacement: u8) -> u16 {
    if displacement >= 0x80 {
        (0xFF00 + displacement) as u16
    } else {
        displacement as u16
    }
}

/// The processor: program counter, stack pointer, register file, and
/// exclusive ownership of the memory bus.
pub struct CPU {
    pub pc: u16,
    pub sp: u16,
    pub registers: Registers,
    pub bus: MemoryBus,
}

/// The value an 8-bit arithmetic operand resolves to: a register, the byte
/// addressed by HL, or the immediate byte after the opcode.
pub open spec fn spec_arith_value(cpu: CPU, target: ArithmeticTarget) -> u8 {
    match target {
        ArithmeticTarget::A => cpu.registers.a,
        ArithmeticTarget::B => cpu.registers.b,
        ArithmeticTarget::C => cpu.registers.c,
        ArithmeticTarget::D => cpu.registers.d,
        ArithmeticTarget::E => cpu.registers.e,
        ArithmeticTarget::H => cpu.registers.h,
        ArithmeticTarget::L => cpu.registers.l,
        ArithmeticTarget::HLA => cpu.bus.spec_read(cpu.registers.spec_hl()),
        ArithmeticTarget::Immediate => cpu.bus.spec_read(cpu.pc.wrapping_add(1)),
    }
}

/// How many bytes an arithmetic instruction occupies: the opcode plus one
/// immediate byte for the immediate addressing mode.
pub open spec fn spec_arith_len(target: ArithmeticTarget) -> u16 {
    match target {
        ArithmeticTarget::Immediate => 2,
        _ => 1,
    }
}

/// An arithmetic instruction's cycle cost: register operands are cheapest;
/// a memory or immediate operand adds a fixed surcharge.
pub open spec fn spec_arith_cycles(target: ArithmeticTarget) -> usize {
    match target {
        ArithmeticTarget::HLA => 8,
        ArithmeticTarget::Immediate => 8,
        _ => 4,
    }
}

/// The register cell a byte increment or decrement works on (the HL-addressed
/// form reads memory instead and never consults this).
pub open spec fn spec_incdec_get(r: Registers, target: IncDecByteTarget) -> u8 {
    match target {
        IncDecByteTarget::A => r.a,
        IncDecByteTarget::B => r.b,
        IncDecByteTarget::C => r.c,
        IncDecByteTarget::D => r.d,
        IncDecByteTarget::E => r.e,
        IncDecByteTarget::H => r.h,
        IncDecByteTarget::L => r.l,
        IncDecByteTarget::HLA => 0,
    }
}

/// The register file with the named increment/decrement cell replaced.
pub open spec fn spec_incdec_set(r: Registers, target: IncDecByteTarget, v: u8) -> Registers {
    match target {
        IncDecByteTarget::A => Registers { a: v, ..r },
        IncDecByteTarget::B => Registers { b: v, ..r },
        IncDecByteTarget::C => Registers { c: v, ..r },
        IncDecByteTarget::D => Registers { d: v, ..r },
        IncDecByteTarget::E => Registers { e: v, ..r },
        IncDecByteTarget::H => Registers { h: v, ..r },
        IncDecByteTarget::L => Registers { l: v, ..r },
        IncDecByteTarget::HLA => r,
    }
}

/// The byte a load source resolves to, before any post-load pair adjustment.
pub open spec fn spec_load_src_value(cpu: CPU, source: LoadByteSource) -> u8 {
    match source {
        LoadByteSource::A => cpu.registers.a,
        LoadByteSource::B => cpu.registers.b,
        LoadByteSource::C => cpu.registers.c,
        LoadByteSource::D => cpu.registers.d,
        LoadByteSource::E => cpu.registers.e,
        LoadByteSource::H => cpu.registers.h,
        LoadByteSource::L => cpu.registers.l,
        LoadByteSource::Immediate => cpu.bus.spec_read(cpu.pc.wrapping_add(1)),
        LoadByteSource::ImmediateAddress => cpu.bus.spec_read(
            cpu.bus.spec_read_word(cpu.pc.wrapping_add(1)),
        ),
        LoadByteSource::CA => cpu.bus.spec_read((0xFF00 + cpu.registers.c) as u16),
        LoadByteSource::BCA => cpu.bus.spec_read(cpu.registers.spec_bc()),
        LoadByteSource::DEA => cpu.bus.spec_read(cpu.registers.spec_de()),
        LoadByteSource::HLA => cpu.bus.spec_read(cpu.registers.spec_hl()),
        LoadByteSource::HLIA => cpu.bus.spec_read(cpu.registers.spec_hl()),
        LoadByteSource::HLDA => cpu.bus.spec_read(cpu.registers.spec_hl()),
    }
}

/// The register file after the source is resolved: the auto-increment and
/// auto-decrement sources adjust HL, every other source leaves the registers
/// alone.
pub open spec fn spec_load_src_regs(cpu: CPU, source: LoadByteSource) -> Registers {
    match source {
        LoadByteSource::HLIA => cpu.registers.spec_with_hl(
            cpu.registers.spec_hl().wrapping_add(1),
        ),
        LoadByteSource::HLDA => cpu.registers.spec_with_hl(
            cpu.registers.spec_hl().wrapping_sub(1),
        ),
        _ => cpu.registers,
    }
}

/// How many immediate bytes a load source consumes.
pub open spec fn spec_load_src_len(source: LoadByteSource) -> u16 {
    match source {
        LoadByteSource::Immediate => 1,
        LoadByteSource::ImmediateAddress => 2,
        _ => 0,
    }
}

/// A load source's cycle surcharge over the 4-cycle base.
pub open spec fn spec_load_src_cycles(source: LoadByteSource) -> usize {
    match source {
        LoadByteSource::Immediate => 4,
        LoadByteSource::ImmediateAddress => 12,
        LoadByteSource::CA => 4,
        LoadByteSource::BCA => 4,
        LoadByteSource::DEA => 4,
        LoadByteSource::HLA => 4,
        LoadByteSource::HLIA => 4,
        LoadByteSource::HLDA => 4,
        _ => 0,
    }
}

/// Whether a load target is one of the seven named registers.
pub open spec fn spec_load_tgt_is_reg(target: LoadByteTarget) -> bool {
    match target {
        LoadByteTarget::A => true,
        LoadByteTarget::B => true,
        LoadByteTarget::C => true,
        LoadByteTarget::D => true,
        LoadByteTarget::E => true,
        LoadByteTarget::H => true,
        LoadByteTarget::L => true,
        _ => false,
    }
}

/// The register file with the named load target replaced by the loaded byte:
/// a one-to-one mapping, each target onto its own cell.
pub open spec fn spec_load_tgt_set(r: Registers, target: LoadByteTarget, v: u8) -> Registers {
    match target {
        LoadByteTarget::A => Registers { a: v, ..r },
        LoadByteTarget::B => Registers { b: v, ..r },
        LoadByteTarget::C => Registers { c: v, ..r },
        LoadByteTarget::D => Registers { d: v, ..r },
        LoadByteTarget::E => Registers { e: v, ..r },
        LoadByteTarget::H => Registers { h: v, ..r },
        LoadByteTarget::L => Registers { l: v, ..r },
        _ => r,
    }
}

/// An effect that only touches the registers: no memory write, no fault, the
/// program counter advanced past the instruction.
pub open spec fn spec_effect_regs(cpu: CPU, regs: Registers, len: u16, cycles: usize) -> Effect {
    Effect {
        registers: regs,
        sp: cpu.sp,
        write: Option::None,
        next_pc: cpu.pc.wrapping_add(len),
        cycles,
        fault: Option::None,
    }
}

/// An effect that jumps: registers, stack pointer and memory untouched.
pub open spec fn spec_effect_jump(cpu: CPU, next_pc: u16, cycles: usize) -> Effect {
    Effect {
        registers: cpu.registers,
        sp: cpu.sp,
        write: Option::None,
        next_pc,
        cycles,
        fault: Option::None,
    }
}

/// The effect of an instruction that demands a byte cell at an address with
/// no backing storage: nothing changes, the fault names the address.
pub open spec fn spec_effect_fault(cpu: CPU, target: u16) -> Effect {
    Effect {
        registers: cpu.registers,
        sp: cpu.sp,
        write: Option::None,
        next_pc: cpu.pc,
        cycles: 0,
        fault: Option::Some(target),
    }
}

/// The effect of one byte load: the source is resolved first (with its HL
/// adjustment, if any), then the target — a register cell, or a store whose
/// address comes from the registers as the source left them. A store into an
/// address without a backing cell is the fault case.
pub open spec fn spec_ld_byte(cpu: CPU, target: LoadByteTarget, source: LoadByteSource) -> Effect {
    let v = spec_load_src_value(cpu, source);
    let regs1 = spec_load_src_regs(cpu, source);
    let len = (1 + spec_load_src_len(source)) as u16;
    let cycles = (4 + spec_load_src_cycles(source)) as usize;
    match target {
        LoadByteTarget::ImmediateAddress => {
            let w = cpu.bus.spec_read_word(cpu.pc.wrapping_add(1));
            if backed(w) {
                Effect {
                    registers: regs1,
                    sp: cpu.sp,
                    write: Option::Some((w, v)),
                    next_pc: cpu.pc.wrapping_add((len + 2) as u16),
                    cycles: (cycles + 12) as usize,
                    fault: Option::None,
                }
            } else {
                spec_effect_fault(cpu, w)
            }
        },
        LoadByteTarget::BCA => spec_ld_store(cpu, regs1, regs1.spec_bc(), v, len, cycles),
        LoadByteTarget::DEA => spec_ld_store(cpu, regs1, regs1.spec_de(), v, len, cycles),
        LoadByteTarget::HLA => spec_ld_store(cpu, regs1, regs1.spec_hl(), v, len, cycles),
        LoadByteTarget::HLIA => spec_ld_store(
            cpu,
            regs1.spec_with_hl(regs1.spec_hl().wrapping_add(1)),
            regs1.spec_hl(),
            v,
            len,
            cycles,
        ),
        LoadByteTarget::HLDA => spec_ld_store(
            cpu,
            regs1.spec_with_hl(regs1.spec_hl().wrapping_sub(1)),
            regs1.spec_hl(),
            v,
            len,
            cycles,
        ),
        _ => spec_effect_regs(cpu, spec_load_tgt_set(regs1, target, v), len, cycles),
    }
}

/// A byte load's store half: the value goes to the cell at `w` (4 more
/// cycles), or the instruction faults if that address has no cell.
pub open spec fn spec_ld_store(
    cpu: CPU,
    regs: Registers,
    w: u16,
    v: u8,
    len: u16,
    cycles: usize,
) -> Effect {
    if backed(w) {
        Effect {
            registers: regs,
            sp: cpu.sp,
            write: Option::Some((w, v)),
            next_pc: cpu.pc.wrapping_add(len),
            cycles: (cycles + 4) as usize,
            fault: Option::None,
        }
    } else {
        spec_effect_fault(cpu, w)
    }
}

/// The interpreter: what one instruction does to a machine state.
pub open spec fn spec_execute(cpu: CPU, instruction: Instruction) -> Effect {
    let regs = cpu.registers;
    match instruction {
        Instruction::Nop => spec_effect_regs(cpu, regs, 1, 4),
        Instruction::Di => spec_effect_regs(cpu, regs, 1, 4),
        Instruction::Add(t) => {
            let v = spec_arith_value(cpu, t);
            spec_effect_regs(
                cpu,
                Registers {
                    a: alu::spec_add_result(regs.a, v, false),
                    f: alu::spec_add_flags(regs.a, v, false),
                    ..regs
                },
                spec_arith_len(t),
                spec_arith_cycles(t),
            )
        },
        Instruction::Adc(t) => {
            let v = spec_arith_value(cpu, t);
            spec_effect_regs(
                cpu,
                Registers {
                    a: alu::spec_add_result(regs.a, v, regs.f.carry),
                    f: alu::spec_add_flags(regs.a, v, regs.f.carry),
                    ..regs
                },
                spec_arith_len(t),
                spec_arith_cycles(t),
            )
        },
        Instruction::Or(t) => {
            let v = spec_arith_value(cpu, t);
            spec_effect_regs(
                cpu,
                Registers { a: regs.a | v, f: alu::spec_logic_flags(regs.a | v), ..regs },
                spec_arith_len(t),
                spec_arith_cycles(t),
            )
        },
        Instruction::Xor(t) => {
            let v = spec_arith_value(cpu, t);
            spec_effect_regs(
                cpu,
                Registers { a: regs.a ^ v, f: alu::spec_logic_flags(regs.a ^ v), ..regs },
                spec_arith_len(t),
                spec_arith_cycles(t),
            )
        },
        Instruction::Cp(t) => {
            let v = spec_arith_value(cpu, t);
            spec_effect_regs(
                cpu,
                Registers { f: alu::spec_cp_flags(regs.a, v), ..regs },
                spec_arith_len(t),
                spec_arith_cycles(t),
            )
        },
        Instruction::Inc(IncDecType::Byte(t)) => {
            if t == IncDecByteTarget::HLA {
                let w = regs.spec_hl();
                if backed(w) {
                    let v = cpu.bus.spec_read(w);
                    Effect {
                        registers: Registers { f: alu::spec_inc_flags(v, regs.f), ..regs },
                        sp: cpu.sp,
                        write: Option::Some((w, alu::spec_inc_result(v))),
                        next_pc: cpu.pc.wrapping_add(1),
                        cycles: 12,
                        fault: Option::None,
                    }
                } else {
                    spec_effect_fault(cpu, w)
                }
            } else {
                let v = spec_incdec_get(regs, t);
                let updated = spec_incdec_set(regs, t, alu::spec_inc_result(v));
                spec_effect_regs(
                    cpu,
                    Registers { f: alu::spec_inc_flags(v, regs.f), ..updated },
                    1,
                    4,
                )
            }
        },
        Instruction::Dec(IncDecType::Byte(t)) => {
            if t == IncDecByteTarget::HLA {
                let w = regs.spec_hl();
                if backed(w) {
                    let v = cpu.bus.spec_read(w);
                    Effect {
                        registers: Registers { f: alu::spec_dec_flags(v, regs.f), ..regs },
                        sp: cpu.sp,
                        write: Option::Some((w, alu::spec_dec_result(v))),
                        next_pc: cpu.pc.wrapping_add(1),
                        cycles: 12,
                        fault: Option::None,
                    }
                } else {
                    spec_effect_fault(cpu, w)
                }
            } else {
                let v = spec_incdec_get(regs, t);
                let updated = spec_incdec_set(regs, t, alu::spec_dec_result(v));
                spec_effect_regs(
                    cpu,
                    Registers { f: alu::spec_dec_flags(v, regs.f), ..updated },
                    1,
                    4,
                )
            }
        },
        Instruction::Inc(IncDecType::Word(t)) => {
            match t {
                IncDecWordTarget::BC => spec_effect_regs(
                    cpu,
                    regs.spec_with_bc(regs.spec_bc().wrapping_add(1)),
                    1,
                    8,
                ),
                IncDecWordTarget::DE => spec_effect_regs(
                    cpu,
                    regs.spec_with_de(regs.spec_de().wrapping_add(1)),
                    1,
                    8,
                ),
                IncDecWordTarget::HL => spec_effect_regs(
                    cpu,
                    regs.spec_with_hl(regs.spec_hl().wrapping_add(1)),
                    1,
                    8,
                ),
                IncDecWordTarget::SP => Effect {
                    registers: regs,
                    sp: cpu.sp.wrapping_add(1),
                    write: Option::None,
                    next_pc: cpu.pc.wrapping_add(1),
                    cycles: 8,
                    fault: Option::None,
                },
            }
        },
        Instruction::Dec(IncDecType::Word(t)) => {
            match t {
                IncDecWordTarget::BC => spec_effect_regs(
                    cpu,
                    regs.spec_with_bc(regs.spec_bc().wrapping_sub(1)),
                    1,
                    8,
                ),
                IncDecWordTarget::DE => spec_effect_regs(
                    cpu,
                    regs.spec_with_de(regs.spec_de().wrapping_sub(1)),
                    1,
                    8,
                ),
                IncDecWordTarget::HL => spec_effect_regs(
                    cpu,
                    regs.spec_with_hl(regs.spec_hl().wrapping_sub(1)),
                    1,
                    8,
                ),
                IncDecWordTarget::SP => Effect {
                    registers: regs,
                    sp: cpu.sp.wrapping_sub(1),
                    write: Option::None,
                    next_pc: cpu.pc.wrapping_add(1),
                    cycles: 8,
                    fault: Option::None,
                },
            }
        },
        Instruction::Rra => spec_effect_regs(
            cpu,
            Registers {
                a: alu::spec_rr_result(regs.a, regs.f.carry),
                f: alu::spec_rotate_flags(regs.a % 2 == 1),
                ..regs
            },
            1,
            4,
        ),
        Instruction::Rla => spec_effect_regs(
            cpu,
            Registers {
                a: alu::spec_rl_result(regs.a, regs.f.carry),
                f: alu::spec_rotate_flags(regs.a >= 0x80),
                ..regs
            },
            1,
            4,
        ),
        Instruction::Jp(Jump::Always(target)) => {
            let next = match target {
                JumpTarget::Immediate => cpu.bus.spec_read_word(cpu.pc.wrapping_add(1)),
                JumpTarget::HLA => regs.spec_hl(),
            };
            spec_effect_jump(cpu, next, 16)
        },
        Instruction::Jp(Jump::Conditional(c)) => {
            if spec_cond(regs.f, c) {
                spec_effect_jump(cpu, cpu.bus.spec_read_word(cpu.pc.wrapping_add(1)), 16)
            } else {
                spec_effect_jump(cpu, cpu.pc.wrapping_add(3), 12)
            }
        },
        Instruction::Jr(JumpRelative::Always) => {
            let d = cpu.bus.spec_read(cpu.pc.wrapping_add(1));
            spec_effect_jump(cpu, cpu.pc.wrapping_add(1).wrapping_add(spec_sign_extend(d)), 12)
        },
        Instruction::Jr(JumpRelative::Conditional(c)) => {
            if spec_cond(regs.f, c) {
                let d = cpu.bus.spec_read(cpu.pc.wrapping_add(1));
                spec_effect_jump(cpu, cpu.pc.wrapping_add(1).wrapping_add(spec_sign_extend(d)), 12)
            } else {
                spec_effect_jump(cpu, cpu.pc.wrapping_add(2), 8)
            }
        },
        Instruction::Ld(LoadType::Word(ws)) => {
            let v = cpu.bus.spec_read_word(cpu.pc.wrapping_add(1));
            match ws {
                LoadWordSource::BC => spec_effect_regs(cpu, regs.spec_with_bc(v), 3, 12),
                LoadWordSource::DE => spec_effect_regs(cpu, regs.spec_with_de(v), 3, 12),
                LoadWordSource::HL => spec_effect_regs(cpu, regs.spec_with_hl(v), 3, 12),
                LoadWordSource::SP => Effect {
                    registers: regs,
                    sp: v,
                    write: Option::None,
                    next_pc: cpu.pc.wrapping_add(3),
                    cycles: 12,
                    fault: Option::None,
                },
            }
        },
        Instruction::Ld(LoadType::Byte(tgt, src)) => spec_ld_byte(cpu, tgt, src),
    }
}

/// What each address reads as after an instruction's memory write (if any)
/// lands on the state's bus.
pub open spec fn spec_mem_after(cpu: CPU, write: Option<(u16, u8)>, a: u16) -> u8 {
    match write {
        Option::None => cpu.bus.spec_read(a),
        Option::Some(p) => cpu.bus.spec_written(p.0, p.1, a),
    }
}

impl CPU {
    /// The machine is usable: the bus's regions have their fixed sizes.
    pub open spec fn wf(self) -> bool {
        self.bus.wf()
    }

    /// Builds the machine in its documented power-on state: PC at the program
    /// entry, SP at the top of high RAM, the register file's post-boot
    /// values, and a bus on which every address reads 0.
    pub fn new() -> (r: CPU)
        ensures
            r.wf(),
            r.pc == 0x0100,
            r.sp == 0xFFFE,
            r.registers == Registers::spec_power_on(),
            forall|a: u16| r.bus.spec_read(a) == 0,
    {
        CPU { pc: 0x0100, sp: 0xFFFE, registers: Registers::new(), bus: MemoryBus::new() }
    }

    /// Copies a program image into the ROM window: input past the window's
    /// capacity is ignored, cells past the input's end keep their contents.
    pub fn load(&mut self, data: &[u8])
        requires
            old(self).wf(),
        ensures
            final(self).wf(),
            final(self).pc == old(self).pc,
            final(self).sp == old(self).sp,
            final(self).registers == old(self).registers,
            forall|a: u16|
                final(self).bus.spec_read(a) == (if (a as int) < loaded_len(data@.len()) {
                    data@[a as int]
                } else {
                    old(self).bus.spec_read(a)
                }),
    {
        self.bus.load(data);
    }

    /// Resolves an 8-bit arithmetic operand.
    fn arith_value(&self, target: ArithmeticTarget) -> (r: u8)
        requires
            self.wf(),
        ensures
            r == spec_arith_value(*self, target),
    {
        match target {
            ArithmeticTarget::A => self.registers.a,
            ArithmeticTarget::B => self.registers.b,
            ArithmeticTarget::C => self.registers.c,
            ArithmeticTarget::D => self.registers.d,
            ArithmeticTarget::E => self.registers.e,
            ArithmeticTarget::H => self.registers.h,
            ArithmeticTarget::L => self.registers.l,
            ArithmeticTarget::HLA => self.bus.read_byte(self.registers.get_hl()),
            ArithmeticTarget::Immediate => self.bus.read_byte(self.pc.wrapping_add(1)),
        }
    }

    /// An arithmetic instruction's byte length and cycle cost.
    fn arith_len_cycles(target: ArithmeticTarget) -> (r: (u16, usize))
        ensures
            r.0 == spec_arith_len(target),
            r.1 == spec_arith_cycles(target),
    {
        match target {
            ArithmeticTarget::HLA => (1, 8),
            ArithmeticTarget::Immediate => (2, 8),
            _ => (1, 4),
        }
    }

    /// Resolves a load source to its byte and the register file as the source
    /// leaves it (HL adjusted for the auto-increment/decrement modes).
    fn load_src(&self, source: LoadByteSource) -> (r: (u8, Registers))
        requires
            self.wf(),
        ensures
            r.0 == spec_load_src_value(*self, source),
            r.1 == spec_load_src_regs(*self, source),
    {
        match source {
            LoadByteSource::A => (self.registers.a, self.registers),
            LoadByteSource::B => (self.registers.b, self.registers),
            LoadByteSource::C => (self.registers.c, self.registers),
            LoadByteSource::D => (self.registers.d, self.registers),
            LoadByteSource::E => (self.registers.e, self.registers),
            LoadByteSource::H => (self.registers.h, self.registers),
            LoadByteSource::L => (self.registers.l, self.registers),
            LoadByteSource::Immediate => (
                self.bus.read_byte(self.pc.wrapping_add(1)),
                self.registers,
            ),
            LoadByteSource::ImmediateAddress => {
                let w = self.bus.read_word(self.pc.wrapping_add(1));
                (self.bus.read_byte(w), self.registers)
            },
            LoadByteSource::CA => (
                self.bus.read_byte(0xFF00 + (self.registers.c as u16)),
                self.registers,
            ),
            LoadByteSource::BCA => (self.bus.read_byte(self.registers.get_bc()), self.registers),
            LoadByteSource::DEA => (self.bus.read_byte(self.registers.get_de()), self.registers),
            LoadByteSource::HLA => (self.bus.read_byte(self.registers.get_hl()), self.registers),
            LoadByteSource::HLIA => {
                let hl = self.registers.get_hl();
                let v = self.bus.read_byte(hl);
                let mut regs = self.registers;
                regs.set_hl(hl.wrapping_add(1));
                (v, regs)
            },
            LoadByteSource::HLDA => {
                let hl = self.registers.get_hl();
                let v = self.bus.read_byte(hl);
                let mut regs = self.registers;
                regs.set_hl(hl.wrapping_sub(1));
                (v, regs)
            },
        }
    }

    /// Executes one already-decoded instruction against the registers and the
    /// bus. Returns the next program counter (not yet applied; `step` applies
    /// it) and the instruction's cycle cost, so a timing-driven caller can
    /// consume the cost. The one failure is a store or read-modify-write
    /// aimed at an address with no backing cell, which leaves the machine
    /// untouched.
    #[verifier::rlimit(100)]
    pub fn execute(&mut self, instruction: Instruction) -> (r: Result<(u16, usize), StepError>)
        requires
            old(self).wf(),
        ensures
            final(self).wf(),
            final(self).pc == old(self).pc,
            ({
                let e = spec_execute(*old(self), instruction);
                match e.fault {
                    Option::Some(t) => r == Err::<(u16, usize), StepError>(
                        StepError::InvalidMutableAccess { address: old(self).pc, target: t },
                    ) && *final(self) == *old(self),
                    Option::None => {
                        &&& r == Ok::<(u16, usize), StepError>((e.next_pc, e.cycles))
                        &&& final(self).registers == e.registers
                        &&& final(self).sp == e.sp
                        &&& forall|a: u16|
                            final(self).bus.spec_read(a) == spec_mem_after(
                                *old(self),
                                e.write,
                                a,
                            )
                    },
                }
            }),
    {
        let pc = self.pc;
        match instruction {
            Instruction::Nop => Ok((pc.wrapping_add(1), 4)),
            Instruction::Di => Ok((pc.wrapping_add(1), 4)),
            Instruction::Add(t) => {
                let v = self.arith_value(t);
                let (result, f) = alu::add8(self.registers.a, v, false);
                self.registers.a = result;
                self.registers.f = f;
                let (len, cycles) = CPU::arith_len_cycles(t);
                Ok((pc.wrapping_add(len), cycles))
            },
            Instruction::Adc(t) => {
                let v = self.arith_value(t);
                let (result, f) = alu::add8(self.registers.a, v, self.registers.f.carry);
                self.registers.a = result;
                self.registers.f = f;
                let (len, cycles) = CPU::arith_len_cycles(t);
                Ok((pc.wrapping_add(len), cycles))
            },
            Instruction::Or(t) => {
                let v = self.arith_value(t);
                let (result, f) = alu::or8(self.registers.a, v);
                self.registers.a = result;
                self.registers.f = f;
                let (len, cycles) = CPU::arith_len_cycles(t);
                Ok((pc.wrapping_add(len), cycles))
            },
            Instruction::Xor(t) => {
                let v = self.arith_value(t);
                let (result, f) = alu::xor8(self.registers.a, v);
                self.registers.a = result;
                self.registers.f = f;
                let (len, cycles) = CPU::arith_len_cycles(t);
                Ok((pc.wrapping_add(len), cycles))
            },
            Instruction::Cp(t) => {
                let v = self.arith_value(t);
                let f = alu::cp8(self.registers.a, v);
                self.registers.f = f;
                let (len, cycles) = CPU::arith_len_cycles(t);
                Ok((pc.wrapping_add(len), cycles))
            },
            Instruction::Inc(IncDecType::Byte(t)) => {
                if matches!(t, IncDecByteTarget::HLA) {
                    let w = self.registers.get_hl();
                    if !is_backed(w) {
                        return Err(StepError::InvalidMutableAccess { address: pc, target: w });
                    }
                    let v = self.bus.read_byte(w);
                    let (result, f) = alu::inc8(v, self.registers.f);
                    self.bus.write_byte(w, result);
                    self.registers.f = f;
                    Ok((pc.wrapping_add(1), 12))
                } else {
                    let v = incdec_get(&self.registers, t);
                    let (result, f) = alu::inc8(v, self.registers.f);
                    incdec_set(&mut self.registers, t, result);
                    self.registers.f = f;
                    Ok((pc.wrapping_add(1), 4))
                }
            },
            Instruction::Dec(IncDecType::Byte(t)) => {
                if matches!(t, IncDecByteTarget::HLA) {
                    let w = self.registers.get_hl();
                    if !is_backed(w) {
                        return Err(StepError::InvalidMutableAccess { address: pc, target: w });
                    }
                    let v = self.bus.read_byte(w);
                    let (result, f) = alu::dec8(v, self.registers.f);
                    self.bus.write_byte(w, result);
                    self.registers.f = f;
                    Ok((pc.wrapping_add(1), 12))
                } else {
                    let v = incdec_get(&self.registers, t);
                    let (result, f) = alu::dec8(v, self.registers.f);
                    incdec_set(&mut self.registers, t, result);
                    self.registers.f = f;
                    Ok((pc.wrapping_add(1), 4))
                }
            },
            Instruction::Inc(IncDecType::Word(t)) => {
                match t {
                    IncDecWordTarget::BC => {
                        let v = self.registers.get_bc();
                        self.registers.set_bc(v.wrapping_add(1));
                    },
                    IncDecWordTarget::DE => {
                        let v = self.registers.get_de();
                        self.registers.set_de(v.wrapping_add(1));
                    },
                    IncDecWordTarget::HL => {
                        let v = self.registers.get_hl();
                        self.registers.set_hl(v.wrapping_add(1));
                    },
                    IncDecWordTarget::SP => {
                        self.sp = self.sp.wrapping_add(1);
                    },
                }
                Ok((pc.wrapping_add(1), 8))
            },
            Instruction::Dec(IncDecType::Word(t)) => {
                match t {
                    IncDecWordTarget::BC => {
                        let v = self.registers.get_bc();
                        self.registers.set_bc(v.wrapping_sub(1));
                    },
                    IncDecWordTarget::DE => {
                        let v = self.registers.get_de();
                        self.registers.set_de(v.wrapping_sub(1));
                    },
                    IncDecWordTarget::HL => {
                        let v = self.registers.get_hl();
                        self.registers.set_hl(v.wrapping_sub(1));
                    },
                    IncDecWordTarget::SP => {
                        self.sp = self.sp.wrapping_sub(1);
                    },
                }
                Ok((pc.wrapping_add(1), 8))
            },
            Instruction::Rra => {
                let (result, f) = alu::rr8(self.registers.a, self.registers.f.carry);
                self.registers.a = result;
                self.registers.f = f;
                Ok((pc.wrapping_add(1), 4))
            },
            Instruction::Rla => {
                let (result, f) = alu::rl8(self.registers.a, self.registers.f.carry);
                self.registers.a = result;
                self.registers.f = f;
                Ok((pc.wrapping_add(1), 4))
            },
            Instruction::Jp(Jump::Always(target)) => {
                let next = match target {
                    JumpTarget::Immediate => self.bus.read_word(pc.wrapping_add(1)),
                    JumpTarget::HLA => self.registers.get_hl(),
                };
                Ok((next, 16))
            },
            Instruction::Jp(Jump::Conditional(c)) => {
                if cond_holds(self.registers.f, c) {
                    Ok((self.bus.read_word(pc.wrapping_add(1)), 16))
                } else {
                    Ok((pc.wrapping_add(3), 12))
                }
            },
            Instruction::Jr(JumpRelative::Always) => {
                let d = self.bus.read_byte(pc.wrapping_add(1));
                Ok((pc.wrapping_add(1).wrapping_add(sign_extend(d)), 12))
            },
            Instruction::Jr(JumpRelative::Conditional(c)) => {
                if cond_holds(self.registers.f, c) {
                    let d = self.bus.read_byte(pc.wrapping_add(1));
                    Ok((pc.wrapping_add(1).wrapping_add(sign_extend(d)), 12))
                } else {
                    Ok((pc.wrapping_add(2), 8))
                }
            },
            Instruction::Ld(LoadType::Word(ws)) => {
                let v = self.bus.read_word(pc.wrapping_add(1));
                match ws {
                    LoadWordSource::BC => self.registers.set_bc(v),
                    LoadWordSource::DE => self.registers.set_de(v),
                    LoadWordSource::HL => self.registers.set_hl(v),
                    LoadWordSource::SP => {
                        self.sp = v;
                    },
                }
                Ok((pc.wrapping_add(3), 12))
            },
            Instruction::Ld(LoadType::Byte(tgt, src)) => {
                let (v, regs1) = self.load_src(src);
                let len = 1 + load_src_len(src);
                let cycles = 4 + load_src_cycles(src);
                match tgt {
                    LoadByteTarget::A | LoadByteTarget::B | LoadByteTarget::C | LoadByteTarget::D
                        | LoadByteTarget::E | LoadByteTarget::H | LoadByteTarget::L => {
                        self.registers = load_tgt_set(regs1, tgt, v);
                        Ok((pc.wrapping_add(len), cycles))
                    },
                    LoadByteTarget::ImmediateAddress => {
                        let w = self.bus.read_word(pc.wrapping_add(1));
                        if !is_backed(w) {
                            return Err(
                                StepError::InvalidMutableAccess { address: pc, target: w },
                            );
                        }
                        self.registers = regs1;
                        self.bus.write_byte(w, v);
                        Ok((pc.wrapping_add(len + 2), cycles + 12))
                    },
                    LoadByteTarget::BCA => {
                        let w = regs1.get_bc();
                        if !is_backed(w) {
                            return Err(
                                StepError::InvalidMutableAccess { address: pc, target: w },
                            );
                        }
                        self.registers = regs1;
                        self.bus.write_byte(w, v);
                        Ok((pc.wrapping_add(len), cycles + 4))
                    },
                    LoadByteTarget::DEA => {
                        let w = regs1.get_de();
                        if !is_backed(w) {
                            return Err(
                                StepError::InvalidMutableAccess { address: pc, target: w },
                            );
                        }
                        self.registers = regs1;
                        self.bus.write_byte(w, v);
                        Ok((pc.wrapping_add(len), cycles + 4))
                    },
                    LoadByteTarget::HLA => {
                        let w = regs1.get_hl();
                        if !is_backed(w) {
                            return Err(
                                StepError::InvalidMutableAccess { address: pc, target: w },
                            );
                        }
                        self.registers = regs1;
                        self.bus.write_byte(w, v);
                        Ok((pc.wrapping_add(len), cycles + 4))
                    },
                    LoadByteTarget::HLIA => {
                        let w = regs1.get_hl();
                        if !is_backed(w) {
                            return Err(
                                StepError::InvalidMutableAccess { address: pc, target: w },
                            );
                        }
                        let mut regs2 = regs1;
                        regs2.set_hl(w.wrapping_add(1));
                        self.registers = regs2;
                        self.bus.write_byte(w, v);
                        Ok((pc.wrapping_add(len), cycles + 4))
                    },
                    LoadByteTarget::HLDA => {
                        let w = regs1.get_hl();
                        if !is_backed(w) {
                            return Err(
                                StepError::InvalidMutableAccess { address: pc, target: w },
                            );
                        }
                        let mut regs2 = regs1;
                        regs2.set_hl(w.wrapping_sub(1));
                        self.registers = regs2;
                        self.bus.write_byte(w, v);
                        Ok((pc.wrapping_add(len), cycles + 4))
                    },
                }
            },
        }
    }

    /// Performs exactly one fetch-decode-execute cycle: fetches the byte at
    /// the program counter, decodes it, executes it, and advances the program
    /// counter to the computed next value. An illegal (reserved) opcode, an
    /// opcode missing from the table, and a store into a reserved window are
    /// reported as distinct errors naming the failing address, and leave the
    /// machine unchanged.
    pub fn step(&mut self) -> (r: Result<(), StepError>)
        requires
            old(self).wf(),
        ensures
            final(self).wf(),
            ({
                let op = old(self).bus.spec_read(old(self).pc);
                match spec_decode(op) {
                    Decoded::Known(i) => {
                        let e = spec_execute(*old(self), i);
                        match e.fault {
                            Option::None => {
                                &&& r == Ok::<(), StepError>(())
                                &&& final(self).pc == e.next_pc
                                &&& final(self).sp == e.sp
                                &&& final(self).registers == e.registers
                                &&& forall|a: u16|
                                    final(self).bus.spec_read(a) == spec_mem_after(
                                        *old(self),
                                        e.write,
                                        a,
                                    )
                            },
                            Option::Some(t) => r == Err::<(), StepError>(
                                StepError::InvalidMutableAccess {
                                    address: old(self).pc,
                                    target: t,
                                },
                            ) && *final(self) == *old(self),
                        }
                    },
                    Decoded::Illegal => r == Err::<(), StepError>(
                        StepError::IllegalOpcode { address: old(self).pc, opcode: op },
                    ) && *final(self) == *old(self),
                    Decoded::Unimplemented => r == Err::<(), StepError>(
                        StepError::UnimplementedOpcode { address: old(self).pc, opcode: op },
                    ) && *final(self) == *old(self),
                }
            }),
    {
        let pc = self.pc;
        let byte = self.bus.read_byte(pc);
        match Instruction::from_byte(byte) {
            Decoded::Known(instruction) => {
                match self.execute(instruction) {
                    Ok(next) => {
                        self.pc = next.0;
                        Ok(())
                    },
                    Err(e) => Err(e),
                }
            },
            Decoded::Illegal => Err(StepError::IllegalOpcode { address: pc, opcode: byte }),
            Decoded::Unimplemented => Err(
                StepError::UnimplementedOpcode { address: pc, opcode: byte },
            ),
        }
    }
}

/// Whether the address has a backing byte cell.
fn is_backed(address: u16) -> (r: bool)
    ensures
        r == backed(address),
{
    !(0xFEA0 <= address && address < 0xFF80)
}

/// Evaluates a jump's flag condition.
fn cond_holds(f: Flags, c: JumpCondition) -> (r: bool)
    ensures
        r == spec_cond(f, c),
{
    match c {
        JumpCondition::Carry => f.carry,
        JumpCondition::NotCarry => !f.carry,
        JumpCondition::Zero => f.zero,
        JumpCondition::NotZero => !f.zero,
    }
}

/// Sign-extends a relative jump's displacement byte to 16 bits.
fn sign_extend(displacement: u8) -> (r: u16)
    ensures
        r == spec_sign_extend(displacement),
{
    if displacement >= 0x80 {
        0xFF00 + (displacement as u16)
    } else {
        displacement as u16
    }
}

/// Reads the register cell a byte increment or decrement works on.
fn incdec_get(r: &Registers, target: IncDecByteTarget) -> (v: u8)
    requires
        target != IncDecByteTarget::HLA,
    ensures
        v == spec_incdec_get(*r, target),
{
    match target {
        IncDecByteTarget::A => r.a,
        IncDecByteTarget::B => r.b,
        IncDecByteTarget::C => r.c,
        IncDecByteTarget::D => r.d,
        IncDecByteTarget::E => r.e,
        IncDecByteTarget::H => r.h,
        IncDecByteTarget::L => r.l,
        IncDecByteTarget::HLA => 0,
    }
}

/// Writes the register cell a byte increment or decrement works on.
fn incdec_set(r: &mut Registers, target: IncDecByteTarget, v: u8)
    requires
        target != IncDecByteTarget::HLA,
    ensures
        *final(r) == spec_incdec_set(*old(r), target, v),
{
    match target {
        IncDecByteTarget::A => {
            r.a = v;
        },
        IncDecByteTarget::B => {
            r.b = v;
        },
        IncDecByteTarget::C => {
            r.c = v;
        },
        IncDecByteTarget::D => {
            r.d = v;
        },
        IncDecByteTarget::E => {
            r.e = v;
        },
        IncDecByteTarget::H => {
            r.h = v;
        },
        IncDecByteTarget::L => {
            r.l = v;
        },
        IncDecByteTarget::HLA => {},
    }
}

/// How many immediate bytes a load source consumes.
fn load_src_len(source: LoadByteSource) -> (r: u16)
    ensures
        r == spec_load_src_len(source),
{
    match source {
        LoadByteSource::Immediate => 1,
        LoadByteSource::ImmediateAddress => 2,
        _ => 0,
    }
}

/// A load source's cycle surcharge.
fn load_src_cycles(source: LoadByteSource) -> (r: usize)
    ensures
        r == spec_load_src_cycles(source),
{
    match source {
        LoadByteSource::Immediate => 4,
        LoadByteSource::ImmediateAddress => 12,
        LoadByteSource::CA => 4,
        LoadByteSource::BCA => 4,
        LoadByteSource::DEA => 4,
        LoadByteSource::HLA => 4,
        LoadByteSource::HLIA => 4,
        LoadByteSource::HLDA => 4,
        _ => 0,
    }
}

/// Stores a loaded byte into its named register target; each target maps
/// one-to-one onto its own cell.
fn load_tgt_set(regs: Registers, target: LoadByteTarget, v: u8) -> (r: Registers)
    requires
        spec_load_tgt_is_reg(target),
    ensures
        r == spec_load_tgt_set(regs, target, v),
{
    match target {
        LoadByteTarget::A => Registers { a: v, ..regs },
        LoadByteTarget::B => Registers { b: v, ..regs },
        LoadByteTarget::C => Registers { c: v, ..regs },
        LoadByteTarget::D => Registers { d: v, ..regs },
        LoadByteTarget::E => Registers { e: v, ..regs },
        LoadByteTarget::H => Registers { h: v, ..regs },
        LoadByteTarget::L => Registers { l: v, ..regs },
        _ => regs,
    }
}

} // verus!
