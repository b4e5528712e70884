use vstd::prelude::*;
use crate::cpu::alu::wrap16;
use crate::mmu::memory::{Memory, add16, readable, writes_word};

verus! {

/// Pushes `value`: the stack pointer drops by two (wrapping) and the word is written there.
pub fn push(sp: &mut u16, value: u16, memory: &mut Memory)
    requires
        old(memory)@.wf(),
        old(memory)@.word_write_ok(wrap16(*old(sp) - 2), value),
    ensures
        *final(sp) == wrap16(*old(sp) - 2),
        writes_word(old(memory)@, final(memory)@, *final(sp), value),
        final(memory)@.wf(),
{
    *sp = sp.wrapping_sub(2);
    memory.write_word(*sp, value);
}

/// Pops a word: reads it at the stack pointer, which then rises by two (wrapping).
pub fn pop(sp: &mut u16, memory: &Memory) -> (r: u16)
    requires
        memory@.wf(),
        readable(*old(sp)),
        readable(add16(*old(sp), 1)),
    ensures
        r == memory@.read_word(*old(sp)),
        *final(sp) == wrap16(*old(sp) + 2),
{
    let word = memory.read_word(*sp);
    *sp = sp.wrapping_add(2);
    word
}

} // verus!
