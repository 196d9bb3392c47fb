use vstd::prelude::*;

verus! {

/// A register that a transfer instruction can name.
#[derive(Clone, Copy, Debug, PartialEq, Eq, Structural)]
pub enum Register {
    A,
    X,
    Y,
}

/// What an instruction does, apart from where its operand lies.
#[derive(Clone, Copy, Debug, PartialEq, Eq, Structural)]
pub enum Instruction {
    /// Copy a byte from memory into the register and set Negative and Zero by it.
    Load(Register),
    /// Copy the register into memory; no flag changes.
    Store(Register),
}

/// The rule by which the bytes after the opcode give the operand's address.
#[derive(Clone, Copy, Debug, PartialEq, Eq, Structural)]
pub enum AddressingMode {
    /// The byte after the opcode is the operand.
    Immediate,
    /// The byte after the opcode is an address in page zero.
    ZeroPage,
    /// Page-zero address plus X, wrapping inside page zero.
    ZeroPageX,
    /// Page-zero address plus Y, wrapping inside page zero.
    ZeroPageY,
    /// The two bytes after the opcode are the address, low byte first.
    Absolute,
    /// Absolute address plus X, wrapping at the end of the address space.
    AbsoluteX,
    /// Absolute address plus Y, wrapping at the end of the address space.
    AbsoluteY,
    /// `(zp,X)`: the byte plus X names a pointer in page zero that holds the address.
    IndexedIndirect,
    /// `(zp),Y`: the byte names a pointer in page zero; Y is added to the address it holds.
    IndirectIndexed,
}

impl AddressingMode {
    /// Number of bytes of the instruction stream that follow the opcode.
    pub open spec fn operand_bytes(self) -> nat {
        match self {
            AddressingMode::Absolute | AddressingMode::AbsoluteX | AddressingMode::AbsoluteY => 2,
            _ => 1,
        }
    }
}

/// An instruction together with its addressing mode: what one opcode stands for.
#[derive(Clone, Copy, Debug, PartialEq, Eq, Structural)]
pub struct Operation {
    pub instruction: Instruction,
    pub mode: AddressingMode,
}

/// Why a step could not be carried out: the byte fetched as an opcode stands for no operation.
#[derive(Clone, Copy, Debug, PartialEq, Eq, Structural)]
pub struct IllegalOpcode {
    /// The offending byte.
    pub opcode: u8,
    /// The address it was fetched from.
    pub pc: u16,
}

/// A row of the opcode table.
pub open spec fn operation(instruction: Instruction, mode: AddressingMode) -> Option<Operation> {
    Some(Operation { instruction, mode })
}

/// The opcode table: the operation each byte stands for, `None` for a byte that stands for none.
pub open spec fn decode_spec(opcode: u8) -> Option<Operation> {
    match opcode {
        0xA9 => operation(Instruction::Load(Register::A), AddressingMode::Immediate),
        0xA5 => operation(Instruction::Load(Register::A), AddressingMode::ZeroPage),
        0xB5 => operation(Instruction::Load(Register::A), AddressingMode::ZeroPageX),
        0xAD => operation(Instruction::Load(Register::A), AddressingMode::Absolute),
        0xBD => operation(Instruction::Load(Register::A), AddressingMode::AbsoluteX),
        0xB9 => operation(Instruction::Load(Register::A), AddressingMode::AbsoluteY),
        0xA1 => operation(Instruction::Load(Register::A), AddressingMode::IndexedIndirect),
        0xB1 => operation(Instruction::Load(Register::A), AddressingMode::IndirectIndexed),
        0xA2 => operation(Instruction::Load(Register::X), AddressingMode::Immediate),
        0xA6 => operation(Instruction::Load(Register::X), AddressingMode::ZeroPage),
        0xB6 => operation(Instruction::Load(Register::X), AddressingMode::ZeroPageY),
        0xAE => operation(Instruction::Load(Register::X), AddressingMode::Absolute),
        0xBE => operation(Instruction::Load(Register::X), AddressingMode::AbsoluteY),
        0xA0 => operation(Instruction::Load(Register::Y), AddressingMode::Immediate),
        0xA4 => operation(Instruction::Load(Register::Y), AddressingMode::ZeroPage),
        0xB4 => operation(Instruction::Load(Register::Y), AddressingMode::ZeroPageX),
        0xAC => operation(Instruction::Load(Register::Y), AddressingMode::Absolute),
        0xBC => operation(Instruction::Load(Register::Y), AddressingMode::AbsoluteX),
        0x85 => operation(Instruction::Store(Register::A), AddressingMode::ZeroPage),
        0x95 => operation(Instruction::Store(Register::A), AddressingMode::ZeroPageX),
        0x8D => operation(Instruction::Store(Register::A), AddressingMode::Absolute),
        0x9D => operation(Instruction::Store(Register::A), AddressingMode::AbsoluteX),
        0x99 => operation(Instruction::Store(Register::A), AddressingMode::AbsoluteY),
        0x81 => operation(Instruction::Store(Register::A), AddressingMode::IndexedIndirect),
        0x91 => operation(Instruction::Store(Register::A), AddressingMode::IndirectIndexed),
        0x86 => operation(Instruction::Store(Register::X), AddressingMode::ZeroPage),
        0x96 => operation(Instruction::Store(Register::X), AddressingMode::ZeroPageY),
        0x8E => operation(Instruction::Store(Register::X), AddressingMode::Absolute),
        0x84 => operation(Instruction::Store(Register::Y), AddressingMode::ZeroPage),
        0x94 => operation(Instruction::Store(Register::Y), AddressingMode::ZeroPageX),
        0x8C => operation(Instruction::Store(Register::Y), AddressingMode::Absolute),
        _ => None,
    }
}

fn entry(instruction: Instruction, mode: AddressingMode) -> (op: Option<Operation>)
    ensures
        op == operation(instruction, mode),
{
    Some(Operation { instruction, mode })
}

/// Looks the opcode up in the table.
pub fn decode(opcode: u8) -> (op: Option<Operation>)
    ensures
        op == decode_spec(opcode),
{
    match opcode {
        0xA9 => entry(Instruction::Load(Register::A), AddressingMode::Immediate),
        0xA5 => entry(Instruction::Load(Register::A), AddressingMode::ZeroPage),
        0xB5 => entry(Instruction::Load(Register::A), AddressingMode::ZeroPageX),
        0xAD => entry(Instruction::Load(Register::A), AddressingMode::Absolute),
        0xBD => entry(Instruction::Load(Register::A), AddressingMode::AbsoluteX),
        0xB9 => entry(Instruction::Load(Register::A), AddressingMode::AbsoluteY),
        0xA1 => entry(Instruction::Load(Register::A), AddressingMode::IndexedIndirect),
        0xB1 => entry(Instruction::Load(Register::A), AddressingMode::IndirectIndexed),
        0xA2 => entry(Instruction::Load(Register::X), AddressingMode::Immediate),
        0xA6 => entry(Instruction::Load(Register::X), AddressingMode::ZeroPage),
        0xB6 => entry(Instruction::Load(Register::X), AddressingMode::ZeroPageY),
        0xAE => entry(Instruction::Load(Register::X), AddressingMode::Absolute),
        0xBE => entry(Instruction::Load(Register::X), AddressingMode::AbsoluteY),
        0xA0 => entry(Instruction::Load(Register::Y), AddressingMode::Immediate),
        0xA4 => entry(Instruction::Load(Register::Y), AddressingMode::ZeroPage),
        0xB4 => entry(Instruction::Load(Register::Y), AddressingMode::ZeroPageX),
        0xAC => entry(Instruction::Load(Register::Y), AddressingMode::Absolute),
        0xBC => entry(Instruction::Load(Register::Y), AddressingMode::AbsoluteX),
        0x85 => entry(Instruction::Store(Register::A), AddressingMode::ZeroPage),
        0x95 => entry(Instruction::Store(Register::A), AddressingMode::ZeroPageX),
        0x8D => entry(Instruction::Store(Register::A), AddressingMode::Absolute),
        0x9D => entry(Instruction::Store(Register::A), AddressingMode::AbsoluteX),
        0x99 => entry(Instruction::Store(Register::A), AddressingMode::AbsoluteY),
        0x81 => entry(Instruction::Store(Register::A), AddressingMode::IndexedIndirect),
        0x91 => entry(Instruction::Store(Register::A), AddressingMode::IndirectIndexed),
        0x86 => entry(Instruction::Store(Register::X), AddressingMode::ZeroPage),
        0x96 => entry(Instruction::Store(Register::X), AddressingMode::ZeroPageY),
        0x8E => entry(Instruction::Store(Register::X), AddressingMode::Absolute),
        0x84 => entry(Instruction::Store(Register::Y), AddressingMode::ZeroPage),
        0x94 => entry(Instruction::Store(Register::Y), AddressingMode::ZeroPageX),
        0x8C => entry(Instruction::Store(Register::Y), AddressingMode::Absolute),
        _ => None,
    }
}

} // verus!
