//! Core of an 8-bit handheld game console emulator: a register file with
//! paired 16-bit views and packed condition flags, a memory bus that routes a
//! 16-bit address space across disjoint storage regions (with a mirrored
//! working-RAM window and reserved holes that read as zero), an instruction
//! decoder over a closed opcode table, and an execution engine that performs
//! one fetch-decode-execute cycle per step. Every operation carries a
//! machine-checked contract giving its exact effect on registers, flags,
//! memory and the program counter.

pub mod alu;
pub mod cpu;
pub mod gpu;
pub mod instruction;
pub mod memory_bus;
pub mod registers;
