use super::flags::{Flags, RESET_STATUS};
use vstd::prelude::*;

verus! {

pub type ProgramCounter = u16;

pub type StackPointer = u16;

pub type Accumulator = u8;

pub type IndexRegister = u8;

pub type ProcessorStatus = u8;

/// Where the program counter points after reset: the start of program ROM.
pub const RESET_PC: ProgramCounter = 0x8000;

/// Stack pointer after reset: the top of the stack page.
pub const RESET_SP: StackPointer = 0x01FF;

/// What a register file holds, as plain values.
pub struct RegisterState {
    pub a: Accumulator,
    pub x: IndexRegister,
    pub y: IndexRegister,
    pub ps: ProcessorStatus,
    pub pc: ProgramCounter,
    pub sp: StackPointer,
}

pub struct Registers {
    a: Accumulator,
    x: IndexRegister,
    y: IndexRegister,
    ps: Flags,
    pc: ProgramCounter,
    sp: StackPointer,
}

impl View for Registers {
    type V = RegisterState;

    closed spec fn view(&self) -> RegisterState {
        RegisterState {
            a: self.a,
            x: self.x,
            y: self.y,
            ps: self.ps@,
            pc: self.pc,
            sp: self.sp,
        }
    }
}

impl Registers {
    pub fn a(&self) -> (a: Accumulator)
        ensures
            a == self@.a,
    {
        self.a
    }

    pub fn set_a(&mut self, a: Accumulator)
        ensures
            final(self)@ == (RegisterState { a, ..old(self)@ }),
    {
        self.a = a;
    }

    pub fn x(&self) -> (x: IndexRegister)
        ensures
            x == self@.x,
    {
        self.x
    }

    pub fn set_x(&mut self, x: IndexRegister)
        ensures
            final(self)@ == (RegisterState { x, ..old(self)@ }),
    {
        self.x = x;
    }

    pub fn y(&self) -> (y: IndexRegister)
        ensures
            y == self@.y,
    {
        self.y
    }

    pub fn set_y(&mut self, y: IndexRegister)
        ensures
            final(self)@ == (RegisterState { y, ..old(self)@ }),
    {
        self.y = y;
    }

    pub fn pc(&self) -> (pc: ProgramCounter)
        ensures
            pc == self@.pc,
    {
        self.pc
    }

    pub fn set_pc(&mut self, pc: ProgramCounter)
        ensures
            final(self)@ == (RegisterState { pc, ..old(self)@ }),
    {
        self.pc = pc
    }

    pub fn sp(&self) -> (sp: StackPointer)
        ensures
            sp == self@.sp,
    {
        self.sp
    }

    /// Hands out the stack pointer for writing; nothing else can change through it.
    pub fn sp_mut(&mut self) -> (sp: &mut StackPointer)
        ensures
            *sp == old(self)@.sp,
            final(self)@ == (RegisterState { sp: *final(sp), ..old(self)@ }),
    {
        &mut self.sp
    }

    pub fn ps(&mut self) -> (ps: &Flags)
        ensures
            ps@ == old(self)@.ps,
            final(self)@ == old(self)@,
    {
        &self.ps
    }

    /// Hands out the flags for writing; nothing else can change through them.
    pub fn ps_mut(&mut self) -> (ps: &mut Flags)
        ensures
            ps@ == old(self)@.ps,
            final(self)@ == (RegisterState { ps: final(ps)@, ..old(self)@ }),
    {
        &mut self.ps
    }
}

impl Default for Registers {
    fn default() -> (registers: Self)
        ensures
            registers@ == (RegisterState {
                a: 0,
                x: 0,
                y: 0,
                ps: RESET_STATUS,
                pc: RESET_PC,
                sp: RESET_SP,
            }),
    {
        Self { a: 0, x: 0, y: 0, sp: RESET_SP, pc: RESET_PC, ps: Flags::default() }
    }
}

} // verus!
