//! The machine as mathematics: what a step does to registers and memory,
//! written over plain values. The executable processor is specified against
//! these functions and the laws are proved about them.

use super::flags::{Flag, RESET_STATUS};
use super::opcode::{
    decode_spec, AddressingMode, IllegalOpcode, Instruction, Operation, Register,
};
use super::registers::{RegisterState, RESET_PC, RESET_SP};
use crate::bit::{bit_is_set, with_bit};
use crate::memory::MEMORY_SIZE;
use vstd::prelude::*;

verus! {

/// Registers and memory at one moment.
#[verifier::ext_equal]
pub struct Machine {
    pub regs: RegisterState,
    pub mem: Seq<u8>,
}

impl Machine {
    /// The memory holds one byte for each 16-bit address.
    pub open spec fn wf(self) -> bool {
        self.mem.len() == MEMORY_SIZE
    }
}

/// The machine after reset: registers at their reset values over a memory of zeros.
pub open spec fn reset() -> Machine {
    Machine {
        regs: RegisterState { a: 0, x: 0, y: 0, ps: RESET_STATUS, pc: RESET_PC, sp: RESET_SP },
        mem: Seq::new(MEMORY_SIZE as nat, |i: int| 0u8),
    }
}

/// The 16-bit word whose low byte is `low` and whose high byte is `high`.
pub open spec fn little_endian(low: u8, high: u8) -> u16 {
    (low + 0x100 * high) as u16
}

/// `pc` moved forward over `bytes` bytes, wrapping at the end of the address space.
pub open spec fn advance(pc: u16, bytes: nat) -> u16 {
    ((pc + bytes) % 0x1_0000) as u16
}

/// Page-zero address `base` plus `index`: the sum wraps at 8 bits, so it never leaves page zero.
pub open spec fn zero_page_indexed(base: u8, index: u8) -> u8 {
    ((base + index) % 0x100) as u8
}

/// Address `base` plus `index`: the sum wraps at 16 bits and may cross pages.
pub open spec fn absolute_indexed(base: u16, index: u8) -> u16 {
    ((base + index) % 0x1_0000) as u16
}

/// The address held little-endian at `pointer` and the byte after it in page
/// zero; after 0xFF comes 0x00.
pub open spec fn zero_page_pointer(mem: Seq<u8>, pointer: u8) -> u16 {
    little_endian(mem[pointer as int], mem[(pointer + 1) % 0x100])
}

/// The byte the program counter points at.
pub open spec fn byte_at_pc(m: Machine) -> u8 {
    m.mem[m.regs.pc as int]
}

/// The little-endian word the program counter points at.
pub open spec fn word_at_pc(m: Machine) -> u16 {
    little_endian(m.mem[m.regs.pc as int], m.mem[advance(m.regs.pc, 1) as int])
}

/// `m` with the program counter moved over `bytes` bytes of the instruction stream.
pub open spec fn consume(m: Machine, bytes: nat) -> Machine {
    Machine { regs: RegisterState { pc: advance(m.regs.pc, bytes), ..m.regs }, mem: m.mem }
}

/// The address of the operand, for a program counter that points at the first
/// byte after the opcode. An immediate operand lies in the instruction stream
/// itself, so its address is the program counter.
pub open spec fn effective_address(mode: AddressingMode, m: Machine) -> u16 {
    match mode {
        AddressingMode::Immediate => m.regs.pc,
        AddressingMode::ZeroPage => byte_at_pc(m) as u16,
        AddressingMode::ZeroPageX => zero_page_indexed(byte_at_pc(m), m.regs.x) as u16,
        AddressingMode::ZeroPageY => zero_page_indexed(byte_at_pc(m), m.regs.y) as u16,
        AddressingMode::Absolute => word_at_pc(m),
        AddressingMode::AbsoluteX => absolute_indexed(word_at_pc(m), m.regs.x),
        AddressingMode::AbsoluteY => absolute_indexed(word_at_pc(m), m.regs.y),
        AddressingMode::IndexedIndirect => zero_page_pointer(
            m.mem,
            zero_page_indexed(byte_at_pc(m), m.regs.x),
        ),
        AddressingMode::IndirectIndexed => absolute_indexed(
            zero_page_pointer(m.mem, byte_at_pc(m)),
            m.regs.y,
        ),
    }
}

/// The operand itself: the byte at the effective address.
pub open spec fn operand(mode: AddressingMode, m: Machine) -> u8 {
    m.mem[effective_address(mode, m) as int]
}

/// What `register` holds.
pub open spec fn register_value(regs: RegisterState, register: Register) -> u8 {
    match register {
        Register::A => regs.a,
        Register::X => regs.x,
        Register::Y => regs.y,
    }
}

/// `regs` with `value` in `register`.
pub open spec fn with_register(regs: RegisterState, register: Register, value: u8) -> RegisterState {
    match register {
        Register::A => RegisterState { a: value, ..regs },
        Register::X => RegisterState { x: value, ..regs },
        Register::Y => RegisterState { y: value, ..regs },
    }
}

/// The status byte after `value` was loaded: Negative is bit 7 of the value,
/// Zero says whether the value is zero, the other six bits stay.
pub open spec fn load_flags(ps: u8, value: u8) -> u8 {
    with_bit(
        with_bit(ps, Flag::Negative.bit(), bit_is_set(value, 7)),
        Flag::Zero.bit(),
        value == 0,
    )
}

/// The machine after `value` was loaded into `register`.
pub open spec fn load(m: Machine, register: Register, value: u8) -> Machine {
    Machine {
        regs: RegisterState {
            ps: load_flags(m.regs.ps, value),
            ..with_register(m.regs, register, value)
        },
        mem: m.mem,
    }
}

/// The machine after `register` was stored at `address`.
pub open spec fn store(m: Machine, register: Register, address: u16) -> Machine {
    Machine { regs: m.regs, mem: m.mem.update(address as int, register_value(m.regs, register)) }
}

/// The machine after `op` was carried out, for a program counter that points
/// at the first byte after the opcode.
pub open spec fn execute(m: Machine, op: Operation) -> Machine {
    let address = effective_address(op.mode, m);
    let resolved = consume(m, op.mode.operand_bytes());
    match op.instruction {
        Instruction::Load(register) => load(resolved, register, m.mem[address as int]),
        Instruction::Store(register) => store(resolved, register, address),
    }
}

/// What stops the next step, if anything: the byte at the program counter
/// stands for no operation.
pub open spec fn fault(m: Machine) -> Option<IllegalOpcode> {
    match decode_spec(byte_at_pc(m)) {
        Some(_) => None,
        None => Some(IllegalOpcode { opcode: byte_at_pc(m), pc: m.regs.pc }),
    }
}

/// The machine after one step: the opcode is fetched, which moves the program
/// counter by one, and the operation it stands for is carried out. Where it
/// stands for none, the fetch is all that happened.
pub open spec fn step(m: Machine) -> Machine {
    match decode_spec(byte_at_pc(m)) {
        Some(op) => execute(consume(m, 1), op),
        None => consume(m, 1),
    }
}

/// The machine after at most `steps` steps, stopping at the first fault, and that fault.
pub open spec fn run(m: Machine, steps: nat) -> (Machine, Option<IllegalOpcode>)
    decreases steps,
{
    if steps == 0 {
        (m, None)
    } else if fault(m) is Some {
        (step(m), fault(m))
    } else {
        run(step(m), (steps - 1) as nat)
    }
}

} // verus!
