use crate::bit::{bit_is_set, lemma_with_bit_reads_back, with_bit, Bit};
use vstd::prelude::*;

verus! {

/// Status byte after reset: Break and the unused bit 5 are set.
pub const RESET_STATUS: u8 = 0b0011_0000;

/// A status bit that carries a meaning. Bit 5 has none and no name here.
#[derive(Clone, Copy, Debug, PartialEq, Eq, Structural)]
pub enum Flag {
    /// Carry - overflow from bit 7
    Carry,
    /// Zero - result of last operation is zero (x == 0)
    Zero,
    /// Interrupt - while set the processor does not respond to interrupts
    /// from other devices
    InterruptDisable,
    /// Decimal mode - while set addition and subtraction use BCD arithmetic
    Decimal,
    /// Break - set when BRK has been executed and an interrupt has been
    /// generated to process it (set after reset)
    Break,
    /// Overflow - set if adding positive numbers ended up with a negative
    /// result: 64 + 64 = -128
    Overflow,
    /// Negative - set if bit 7 (MSB) is 1, which in a signed number means
    /// negativity
    Negative,
}

impl Flag {
    /// Position of the flag in the status byte.
    pub open spec fn bit(self) -> u8 {
        match self {
            Flag::Carry => 0,
            Flag::Zero => 1,
            Flag::InterruptDisable => 2,
            Flag::Decimal => 3,
            Flag::Break => 4,
            Flag::Overflow => 6,
            Flag::Negative => 7,
        }
    }

    pub fn position(self) -> (position: u8)
        ensures
            position == self.bit(),
            position < 8,
    {
        match self {
            Flag::Carry => 0,
            Flag::Zero => 1,
            Flag::InterruptDisable => 2,
            Flag::Decimal => 3,
            Flag::Break => 4,
            Flag::Overflow => 6,
            Flag::Negative => 7,
        }
    }
}

/// Flags are independent: setting one decides that flag and leaves every
/// other bit of the status byte, the unused bit 5 among them, as it was.
pub proof fn lemma_flags_are_independent(status: u8, flag: Flag, value: bool)
    ensures
        bit_is_set(with_bit(status, flag.bit(), value), flag.bit()) == value,
        forall|p: u8|
            p < 8 && p != flag.bit() ==> #[trigger] bit_is_set(
                with_bit(status, flag.bit(), value),
                p,
            ) == bit_is_set(status, p),
{
    assert forall|p: u8| p < 8 implies #[trigger] bit_is_set(
        with_bit(status, flag.bit(), value),
        p,
    ) == if p == flag.bit() {
        value
    } else {
        bit_is_set(status, p)
    } by {
        lemma_with_bit_reads_back(status, flag.bit(), value, p);
    }
}

/// # Flags (processor state)
/// ```text
/// 7 6 _ 4 3 2 1 0
/// N V 1 B D I Z C
/// ```
///
/// The view of a `Flags` is the status byte itself.
#[derive(Debug)]
pub struct Flags(u8);

impl View for Flags {
    type V = u8;

    closed spec fn view(&self) -> u8 {
        self.0
    }
}

impl Flags {
    pub fn get(&self, flag: Flag) -> (value: bool)
        ensures
            value == bit_is_set(self@, flag.bit()),
    {
        self.0.get_bit(flag.position())
    }

    pub fn set(&mut self, flag: Flag, value: bool)
        ensures
            final(self)@ == with_bit(old(self)@, flag.bit(), value),
    {
        self.0.set_bit(flag.position(), value)
    }

    pub fn negative(&self) -> (negative: bool)
        ensures
            negative == bit_is_set(self@, 7),
    {
        self.get(Flag::Negative)
    }

    pub fn set_negative(&mut self, negative: bool)
        ensures
            final(self)@ == with_bit(old(self)@, 7, negative),
    {
        self.set(Flag::Negative, negative)
    }

    pub fn overflow(&self) -> (overflow: bool)
        ensures
            overflow == bit_is_set(self@, 6),
    {
        self.get(Flag::Overflow)
    }

    pub fn set_overflow(&mut self, overflow: bool)
        ensures
            final(self)@ == with_bit(old(self)@, 6, overflow),
    {
        self.set(Flag::Overflow, overflow)
    }

    pub fn brk(&self) -> (brk: bool)
        ensures
            brk == bit_is_set(self@, 4),
    {
        self.get(Flag::Break)
    }

    pub fn set_brk(&mut self, brk: bool)
        ensures
            final(self)@ == with_bit(old(self)@, 4, brk),
    {
        self.set(Flag::Break, brk)
    }

    pub fn decimal(&self) -> (decimal: bool)
        ensures
            decimal == bit_is_set(self@, 3),
    {
        self.get(Flag::Decimal)
    }

    pub fn set_decimal(&mut self, decimal: bool)
        ensures
            final(self)@ == with_bit(old(self)@, 3, decimal),
    {
        self.set(Flag::Decimal, decimal)
    }

    pub fn interrupt_disable(&self) -> (interrupt_disable: bool)
        ensures
            interrupt_disable == bit_is_set(self@, 2),
    {
        self.get(Flag::InterruptDisable)
    }

    pub fn set_interrupt_disable(&mut self, interrupt_disable: bool)
        ensures
            final(self)@ == with_bit(old(self)@, 2, interrupt_disable),
    {
        self.set(Flag::InterruptDisable, interrupt_disable)
    }

    pub fn zero(&self) -> (zero: bool)
        ensures
            zero == bit_is_set(self@, 1),
    {
        self.get(Flag::Zero)
    }

    pub fn set_zero(&mut self, zero: bool)
        ensures
            final(self)@ == with_bit(old(self)@, 1, zero),
    {
        self.set(Flag::Zero, zero)
    }

    pub fn carry(&self) -> (carry: bool)
        ensures
            carry == bit_is_set(self@, 0),
    {
        self.get(Flag::Carry)
    }

    pub fn set_carry(&mut self, carry: bool)
        ensures
            final(self)@ == with_bit(old(self)@, 0, carry),
    {
        self.set(Flag::Carry, carry)
    }

    pub fn raw(&self) -> (raw: u8)
        ensures
            raw == self@,
    {
        self.0
    }
}

impl Default for Flags {
    fn default() -> (flags: Self)
        ensures
            flags@ == RESET_STATUS,
    {
        Self(RESET_STATUS)
    }
}

} // verus!
