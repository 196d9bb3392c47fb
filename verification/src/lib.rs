//! Instruction-execution core of a 6502-class processor emulator.
//!
//! The machine is a register file and a flat 64 KiB memory. One call of
//! [`cpu::CPU::step`] fetches an opcode, resolves its addressing mode and
//! applies the instruction; every function states what it does over the
//! mathematical model in [`cpu::machine`].

pub mod bit;
pub mod cpu;
pub mod memory;
