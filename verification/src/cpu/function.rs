use vstd::prelude::*;
use crate::cpu::alu::wrap16;
use crate::cpu::registers::Registers;
use crate::cpu::stack;
use crate::mmu::memory::{Memory, MemoryView, add16, readable, writes_word, plain_ram, lemma_word_read_after_write};

verus! {

/// Calls `nn`: pushes the program counter and jumps.
pub fn call_nn(registers: &mut Registers, nn: u16, memory: &mut Memory)
    requires
        old(memory)@.wf(),
        old(memory)@.word_write_ok(wrap16(old(registers).sp - 2), old(registers).pc),
    ensures
        *final(registers) == (Registers { pc: nn, sp: wrap16(old(registers).sp - 2), ..*old(registers) }),
        writes_word(old(memory)@, final(memory)@, final(registers).sp, old(registers).pc),
        final(memory)@.wf(),
{
    stack::push(&mut registers.sp, registers.pc, memory);
    registers.pc = nn;
}

/// Returns: pops the program counter.
pub fn ret(registers: &mut Registers, memory: &Memory)
    requires
        memory@.wf(),
        readable(old(registers).sp),
        readable(add16(old(registers).sp, 1)),
    ensures
        *final(registers) == (Registers {
            pc: memory@.read_word(old(registers).sp),
            sp: wrap16(old(registers).sp + 2),
            ..*old(registers)
        }),
{
    registers.pc = stack::pop(&mut registers.sp, memory);
}

/// A call followed by a return, with the stack in plain RAM, comes back to the
/// address after the call with the stack pointer restored and every other register
/// as it was.
pub proof fn lemma_call_then_ret(r: Registers, nn: u16, m: MemoryView, m1: MemoryView)
    requires
        m.wf(),
        plain_ram(wrap16(r.sp - 2)),
        plain_ram(add16(wrap16(r.sp - 2), 1)),
        writes_word(m, m1, wrap16(r.sp - 2), r.pc),
    ensures
        ({
            let called = Registers { pc: nn, sp: wrap16(r.sp - 2), ..r };
            Registers { pc: m1.read_word(called.sp), sp: wrap16(called.sp + 2), ..called }
        }) == r,
{
    lemma_word_read_after_write(m, m1, wrap16(r.sp - 2), r.pc);
}

} // verus!
