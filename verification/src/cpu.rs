use self::flags::Flags;
use self::machine::Machine;
use self::opcode::{decode, AddressingMode, IllegalOpcode, Instruction, Operation, Register};
use self::registers::{Accumulator, IndexRegister, Registers};
use crate::bit::Bit;
use crate::memory::{with_block, DWord, Memory, Word, MEMORY_SIZE};
use vstd::prelude::*;

pub mod flags;
pub mod laws;
pub mod machine;
pub mod opcode;
pub mod registers;

verus! {

/// Address at which programs are loaded: the start of program ROM.
pub const PROGRAM_ORIGIN: usize = 0x8000;

/// The processor with the memory it runs on. Its view is the [`Machine`] that both make up.
pub struct CPU {
    pub registers: Registers,
    pub memory: Memory,
}

impl View for CPU {
    type V = Machine;

    open spec fn view(&self) -> Machine {
        Machine { regs: self.registers@, mem: self.memory@ }
    }
}

impl Default for CPU {
    fn default() -> (cpu: Self)
        ensures
            cpu@ == machine::reset(),
    {
        CPU { registers: Registers::default(), memory: Memory::default() }
    }
}

/// The word with `low` as its low and `high` as its high byte.
pub fn join_bytes(low: Word, high: Word) -> (word: DWord)
    ensures
        word == low + 0x100 * high,
        word == machine::little_endian(low, high),
{
    low as u16 + 0x100 * (high as u16)
}

/// Indexes inside page zero: `(base + index) mod 256`.
pub fn index_zero_page(base: Word, index: IndexRegister) -> (address: Word)
    ensures
        address == (base + index) % 0x100,
        address == machine::zero_page_indexed(base, index),
{
    base.wrapping_add(index)
}

/// Indexes in the whole address space: `(base + index) mod 65536`.
pub fn index_absolute(base: DWord, index: IndexRegister) -> (address: DWord)
    ensures
        address == (base + index) % 0x1_0000,
        address == machine::absolute_indexed(base, index),
{
    base.wrapping_add(index as u16)
}

/// Sets Negative and Zero as a load of `value` does.
fn set_negative_zero(flags: &mut Flags, value: Word)
    ensures
        final(flags)@ == machine::load_flags(old(flags)@, value),
{
    flags.set_negative(value.get_bit(7));
    flags.set_zero(value == 0);
}

impl CPU {
    /// Copies `program` into memory from [`PROGRAM_ORIGIN`] on.
    pub fn load_programm(&mut self, program: &[Word])
        requires
            program@.len() <= MEMORY_SIZE - PROGRAM_ORIGIN,
        ensures
            final(self)@ == (Machine {
                regs: old(self)@.regs,
                mem: with_block(old(self)@.mem, PROGRAM_ORIGIN as int, program@),
            }),
    {
        let start = PROGRAM_ORIGIN;
        self.memory.write_array(start, start + program.len(), program);
    }

    /// Steps until `steps` instructions are done or one cannot be decoded,
    /// whichever comes first.
    pub fn run(&mut self, steps: u64) -> (outcome: Result<(), IllegalOpcode>)
        ensures
            final(self)@ == machine::run(old(self)@, steps as nat).0,
            outcome == match machine::run(old(self)@, steps as nat).1 {
                Some(fault) => Err(fault),
                None => Ok(()),
            },
    {
        let mut done: u64 = 0;
        while done < steps
            invariant
                done <= steps,
                machine::run(old(self)@, steps as nat) == machine::run(
                    self@,
                    (steps - done) as nat,
                ),
            decreases steps - done,
        {
            match self.step() {
                Ok(()) => {},
                Err(fault) => {
                    return Err(fault);
                },
            }
            done += 1;
        }
        Ok(())
    }

    /// Fetches one opcode and carries out the operation it stands for.
    ///
    /// A byte that stands for no operation ends the step after the fetch: the
    /// error names the byte and the address it came from.
    pub fn step(&mut self) -> (outcome: Result<(), IllegalOpcode>)
        ensures
            final(self)@ == machine::step(old(self)@),
            outcome == match machine::fault(old(self)@) {
                Some(fault) => Err(fault),
                None => Ok(()),
            },
    {
        let pc = self.registers.pc();
        let opcode = self.fetch_word();
        match decode(opcode) {
            Some(op) => {
                self.execute(op);
                Ok(())
            },
            None => Err(IllegalOpcode { opcode, pc }),
        }
    }

    /// Resolves the operand of `op` and applies its instruction. The program
    /// counter points at the first byte after the opcode.
    pub fn execute(&mut self, op: Operation)
        ensures
            final(self)@ == machine::execute(old(self)@, op),
    {
        match op.instruction {
            Instruction::Load(register) => {
                let value = self.resolve_value(op.mode);
                match register {
                    Register::A => self.lda(value),
                    Register::X => self.ldx(value),
                    Register::Y => self.ldy(value),
                }
            },
            Instruction::Store(register) => {
                let address = self.resolve_address(op.mode);
                match register {
                    Register::A => self.sta(address),
                    Register::X => self.stx(address),
                    Register::Y => self.sty(address),
                }
            },
        }
    }

    /// Consumes the operand bytes of `mode` and returns the address they name.
    pub fn resolve_address(&mut self, mode: AddressingMode) -> (address: DWord)
        ensures
            address == machine::effective_address(mode, old(self)@),
            final(self)@ == machine::consume(old(self)@, mode.operand_bytes()),
    {
        match mode {
            AddressingMode::Immediate => {
                let pc = self.registers.pc();
                self.registers.set_pc(pc.wrapping_add(1));
                pc
            },
            AddressingMode::ZeroPage => self.fetch_word() as u16,
            AddressingMode::ZeroPageX => {
                let base = self.fetch_word();
                index_zero_page(base, self.registers.x()) as u16
            },
            AddressingMode::ZeroPageY => {
                let base = self.fetch_word();
                index_zero_page(base, self.registers.y()) as u16
            },
            AddressingMode::Absolute => self.fetch_dword(),
            AddressingMode::AbsoluteX => {
                let base = self.fetch_dword();
                index_absolute(base, self.registers.x())
            },
            AddressingMode::AbsoluteY => {
                let base = self.fetch_dword();
                index_absolute(base, self.registers.y())
            },
            AddressingMode::IndexedIndirect => {
                let base = self.fetch_word();
                let pointer = index_zero_page(base, self.registers.x());
                self.read_pointer(pointer)
            },
            AddressingMode::IndirectIndexed => {
                let pointer = self.fetch_word();
                let base = self.read_pointer(pointer);
                index_absolute(base, self.registers.y())
            },
        }
    }

    /// Consumes the operand bytes of `mode` and returns the operand itself.
    pub fn resolve_value(&mut self, mode: AddressingMode) -> (value: Word)
        ensures
            value == machine::operand(mode, old(self)@),
            final(self)@ == machine::consume(old(self)@, mode.operand_bytes()),
    {
        let address = self.resolve_address(mode);
        self.memory.read(address as usize)
    }

    /// Reads the address stored at `pointer` in page zero, low byte first.
    /// The high byte comes from `pointer + 1` in page zero: after 0xFF, from 0x00.
    pub fn read_pointer(&self, pointer: Word) -> (address: DWord)
        ensures
            address == machine::zero_page_pointer(self@.mem, pointer),
    {
        let low = self.memory.read(pointer as usize);
        let high = self.memory.read(pointer.wrapping_add(1) as usize);
        join_bytes(low, high)
    }

    /// Reads the byte at the program counter and moves the counter past it.
    pub fn fetch_word(&mut self) -> (word: Word)
        ensures
            word == machine::byte_at_pc(old(self)@),
            final(self)@ == machine::consume(old(self)@, 1),
    {
        let pc = self.registers.pc();
        let word = self.memory.read(pc as usize);
        self.registers.set_pc(pc.wrapping_add(1));

        word
    }

    /// Reads the little-endian word at the program counter and moves the counter past it.
    pub fn fetch_dword(&mut self) -> (dword: DWord)
        ensures
            dword == machine::word_at_pc(old(self)@),
            final(self)@ == machine::consume(old(self)@, 2),
    {
        let low = self.fetch_word();
        let high = self.fetch_word();
        join_bytes(low, high)
    }

    // Transfer Instructions
    pub fn lda(&mut self, a: Accumulator)
        ensures
            final(self)@ == machine::load(old(self)@, Register::A, a),
    {
        self.registers.set_a(a);

        let flags = self.registers.ps_mut();
        set_negative_zero(flags, a);
    }

    pub fn ldx(&mut self, x: IndexRegister)
        ensures
            final(self)@ == machine::load(old(self)@, Register::X, x),
    {
        self.registers.set_x(x);

        let flags = self.registers.ps_mut();
        set_negative_zero(flags, x);
    }

    pub fn ldy(&mut self, y: IndexRegister)
        ensures
            final(self)@ == machine::load(old(self)@, Register::Y, y),
    {
        self.registers.set_y(y);

        let flags = self.registers.ps_mut();
        set_negative_zero(flags, y);
    }

    pub fn sta(&mut self, address: DWord)
        ensures
            final(self)@ == machine::store(old(self)@, Register::A, address),
    {
        self.memory.write(address as usize, self.registers.a());
    }

    pub fn stx(&mut self, address: DWord)
        ensures
            final(self)@ == machine::store(old(self)@, Register::X, address),
    {
        self.memory.write(address as usize, self.registers.x());
    }

    pub fn sty(&mut self, address: DWord)
        ensures
            final(self)@ == machine::store(old(self)@, Register::Y, address),
    {
        self.memory.write(address as usize, self.registers.y());
    }
}

} // verus!
