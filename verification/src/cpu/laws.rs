//! What holds of every machine: the laws of the load and store instructions
//! and of the addressing modes, proved over the model in [`super::machine`].

use super::flags::Flag;
use super::machine::{
    byte_at_pc, consume, effective_address, execute, fault, load, load_flags, register_value, run,
    step, store, word_at_pc, zero_page_pointer, Machine,
};
use super::opcode::{decode_spec, AddressingMode, Instruction, Operation, Register};
use crate::bit::{bit_is_set, lemma_with_bit_reads_back, with_bit};
use vstd::prelude::*;

verus! {

/// Loading `value` into any register sets Negative exactly when bit 7 of the
/// value is set and Zero exactly when the value is zero; the six other status
/// bits keep their state.
pub proof fn lemma_load_sets_negative_and_zero(m: Machine, register: Register, value: u8)
    ensures
        bit_is_set(load(m, register, value).regs.ps, Flag::Negative.bit()) <==> value & 0x80 != 0,
        bit_is_set(load(m, register, value).regs.ps, Flag::Zero.bit()) <==> value == 0,
        forall|p: u8|
            p < 8 && p != Flag::Negative.bit() && p != Flag::Zero.bit() ==> #[trigger] bit_is_set(
                load(m, register, value).regs.ps,
                p,
            ) == bit_is_set(m.regs.ps, p),
{
    let ps = m.regs.ps;
    let negative = bit_is_set(value, 7);
    let with_negative = with_bit(ps, 7, negative);
    assert(load(m, register, value).regs.ps == with_bit(with_negative, 1, value == 0));
    assert(negative <==> value & 0x80 != 0) by {
        assert((value & (1u8 << 7u8) != 0) <==> (value & 0x80 != 0)) by (bit_vector);
    }
    assert forall|p: u8| p < 8 implies bit_is_set(load(m, register, value).regs.ps, p) == if p
        == 1 {
        value == 0
    } else if p == 7 {
        negative
    } else {
        bit_is_set(ps, p)
    } by {
        lemma_with_bit_reads_back(ps, 7, negative, p);
        lemma_with_bit_reads_back(with_negative, 1, value == 0, p);
    }
}

/// A load puts the value into the register it names and leaves the other two
/// data registers, the stack pointer, the program counter and the memory alone.
pub proof fn lemma_load_changes_one_register(m: Machine, register: Register, value: u8)
    ensures
        register_value(load(m, register, value).regs, register) == value,
        forall|other: Register|
            other != register ==> #[trigger] register_value(load(m, register, value).regs, other)
                == register_value(m.regs, other),
        load(m, register, value).regs.ps == load_flags(m.regs.ps, value),
        load(m, register, value).regs.sp == m.regs.sp,
        load(m, register, value).regs.pc == m.regs.pc,
        load(m, register, value).mem == m.mem,
{
}

/// A store changes no register, and so no flag; in memory it changes the
/// byte at the address and no other.
pub proof fn lemma_store_changes_one_byte(m: Machine, register: Register, address: u16)
    requires
        m.wf(),
    ensures
        store(m, register, address).regs == m.regs,
        store(m, register, address).wf(),
        store(m, register, address).mem[address as int] == register_value(m.regs, register),
        forall|other: int|
            0 <= other < m.mem.len() && other != address ==> #[trigger] store(
                m,
                register,
                address,
            ).mem[other] == m.mem[other],
{
}

/// Storing a register at an address and then loading from that address, into
/// any register, yields the value the stored register held.
pub proof fn lemma_store_then_load_round_trip(
    m: Machine,
    source: Register,
    address: u16,
    target: Register,
)
    requires
        m.wf(),
    ensures
        ({
            let stored = store(m, source, address);
            let loaded = load(stored, target, stored.mem[address as int]);
            register_value(loaded.regs, target) == register_value(m.regs, source)
        }),
{
}

/// Zero-page indexed resolution adds the index modulo 256: the address stays
/// in page zero and differs from the 16-bit sum whenever that sum leaves the page.
pub proof fn lemma_zero_page_indexed_wraps_in_page(m: Machine)
    ensures
        effective_address(AddressingMode::ZeroPageX, m) == (byte_at_pc(m) + m.regs.x) % 0x100,
        effective_address(AddressingMode::ZeroPageY, m) == (byte_at_pc(m) + m.regs.y) % 0x100,
        effective_address(AddressingMode::ZeroPageX, m) < 0x100,
        effective_address(AddressingMode::ZeroPageY, m) < 0x100,
        byte_at_pc(m) + m.regs.x >= 0x100 ==> effective_address(AddressingMode::ZeroPageX, m)
            != (byte_at_pc(m) + m.regs.x) % 0x1_0000,
        byte_at_pc(m) + m.regs.y >= 0x100 ==> effective_address(AddressingMode::ZeroPageY, m)
            != (byte_at_pc(m) + m.regs.y) % 0x1_0000,
        effective_address(AddressingMode::IndexedIndirect, m) == zero_page_pointer(
            m.mem,
            ((byte_at_pc(m) + m.regs.x) % 0x100) as u8,
        ),
{
}

/// Absolute indexed resolution adds the index modulo 65536: the address may
/// cross pages and wraps from the end of the address space to its start.
pub proof fn lemma_absolute_indexed_wraps_in_address_space(m: Machine)
    ensures
        effective_address(AddressingMode::AbsoluteX, m) == (word_at_pc(m) + m.regs.x) % 0x1_0000,
        effective_address(AddressingMode::AbsoluteY, m) == (word_at_pc(m) + m.regs.y) % 0x1_0000,
        effective_address(AddressingMode::IndirectIndexed, m) == (zero_page_pointer(
            m.mem,
            byte_at_pc(m),
        ) + m.regs.y) % 0x1_0000,
{
}

/// A step that executes a store instruction changes no flag and no register
/// but the program counter.
pub proof fn lemma_store_step_keeps_flags(m: Machine, register: Register, mode: AddressingMode)
    requires
        decode_spec(byte_at_pc(m)) == Some(
            Operation { instruction: Instruction::Store(register), mode },
        ),
    ensures
        fault(m) is None,
        step(m).regs.ps == m.regs.ps,
        step(m).regs.a == m.regs.a,
        step(m).regs.x == m.regs.x,
        step(m).regs.y == m.regs.y,
        step(m).regs.sp == m.regs.sp,
        step(m).mem == m.mem.update(
            effective_address(mode, consume(m, 1)) as int,
            register_value(m.regs, register),
        ),
{
}

/// A step that executes a load instruction changes its register, Negative,
/// Zero and the program counter: not the other data registers, not the stack
/// pointer, not the memory.
pub proof fn lemma_load_step_changes_one_register(
    m: Machine,
    register: Register,
    mode: AddressingMode,
)
    requires
        decode_spec(byte_at_pc(m)) == Some(
            Operation { instruction: Instruction::Load(register), mode },
        ),
    ensures
        fault(m) is None,
        register_value(step(m).regs, register) == m.mem[effective_address(
            mode,
            consume(m, 1),
        ) as int],
        forall|other: Register|
            other != register ==> #[trigger] register_value(step(m).regs, other)
                == register_value(m.regs, other),
        step(m).regs.ps == load_flags(m.regs.ps, register_value(step(m).regs, register)),
        step(m).regs.sp == m.regs.sp,
        step(m).mem == m.mem,
{
}

/// A store instruction followed by a load instruction that resolves to the
/// same address leaves in the loaded register what the stored one held.
pub proof fn lemma_store_step_then_load_step(
    m: Machine,
    source: Register,
    store_mode: AddressingMode,
    target: Register,
    load_mode: AddressingMode,
)
    requires
        m.wf(),
        decode_spec(byte_at_pc(m)) == Some(
            Operation { instruction: Instruction::Store(source), mode: store_mode },
        ),
        decode_spec(byte_at_pc(step(m))) == Some(
            Operation { instruction: Instruction::Load(target), mode: load_mode },
        ),
        effective_address(load_mode, consume(step(m), 1)) == effective_address(
            store_mode,
            consume(m, 1),
        ),
    ensures
        register_value(step(step(m)).regs, target) == register_value(m.regs, source),
{
}

/// No store instruction takes an immediate operand: a store never writes into
/// the instruction stream it is decoded from.
pub proof fn lemma_store_is_never_immediate(opcode: u8)
    ensures
        match decode_spec(opcode) {
            Some(op) => op.instruction is Store ==> op.mode != AddressingMode::Immediate,
            None => true,
        },
{
}

/// Every step moves the program counter past the opcode and the operand
/// bytes of its addressing mode, or past the opcode alone where it faults.
pub proof fn lemma_step_advances_pc(m: Machine)
    ensures
        step(m).regs.pc == match decode_spec(byte_at_pc(m)) {
            Some(op) => ((m.regs.pc + 1 + op.mode.operand_bytes()) % 0x1_0000) as u16,
            None => ((m.regs.pc + 1) % 0x1_0000) as u16,
        },
{
    match decode_spec(byte_at_pc(m)) {
        Some(op) => {
            assert(step(m) == execute(consume(m, 1), op));
            let bytes = op.mode.operand_bytes();
            assert(((((m.regs.pc + 1) % 0x1_0000) as u16) + bytes) % 0x1_0000 == (m.regs.pc + 1
                + bytes) % 0x1_0000);
        },
        None => {},
    }
}

/// A step leaves the memory at one byte per address; so does any run.
pub proof fn lemma_run_keeps_memory_size(m: Machine, steps: nat)
    requires
        m.wf(),
    ensures
        step(m).wf(),
        run(m, steps).0.wf(),
    decreases steps,
{
    if steps > 0 && fault(m) is None {
        lemma_run_keeps_memory_size(step(m), (steps - 1) as nat);
    }
}

/// Running `first + second` steps is running `first` steps and then, unless
/// they ended in a fault, `second` more.
pub proof fn lemma_run_in_two_parts(m: Machine, first: nat, second: nat)
    ensures
        run(m, first + second) == if run(m, first).1 is Some {
            run(m, first)
        } else {
            run(run(m, first).0, second)
        },
    decreases first,
{
    if first > 0 && fault(m) is None {
        lemma_run_in_two_parts(step(m), (first - 1) as nat, second);
        assert(first + second - 1 == (first - 1) as nat + second);
    }
}

} // verus!
