use vstd::prelude::*;
use crate::bit_utils;
use crate::cpu::Cpu;
use crate::cpu::alu::{
    wrap8, wrap16, alu, inc_flags, dec_flags, shift, shift_flags, bit_flags, add_hl_flags, sp_offset,
    sp_offset_flags,
};
use crate::cpu::flag::Flag;
use crate::cpu::semantics::{can_pop, pushes};
use crate::mmu::memory::{Memory, add16, readable, writes};

verus! {

impl Cpu {
    /// Fetches the byte at the program counter and steps past it.
    pub(crate) fn get_n(&mut self, memory: &Memory) -> (r: u8)
        requires
            memory@.wf(),
            readable(old(self).registers.pc),
        ensures
            r == memory@.read(old(self).registers.pc),
            *final(self) == old(self).with_pc(add16(old(self).registers.pc, 1)),
    {
        let byte = memory.read_byte(self.registers.pc);
        self.registers.pc = self.registers.pc.wrapping_add(1);
        byte
    }

    /// Fetches the little-endian word at the program counter and steps past it.
    pub(crate) fn get_nn(&mut self, memory: &Memory) -> (r: u16)
        requires
            memory@.wf(),
            readable(old(self).registers.pc),
            readable(add16(old(self).registers.pc, 1)),
        ensures
            r == memory@.read_word(old(self).registers.pc),
            *final(self) == old(self).with_pc(add16(old(self).registers.pc, 2)),
    {
        let word = memory.read_word(self.registers.pc);
        self.registers.pc = self.registers.pc.wrapping_add(2);
        word
    }

    pub(crate) fn ld_r_r(&mut self, r: u8) -> (res: u8)
        ensures
            res == r,
            *final(self) == *old(self),
    {
        r
    }

    pub(crate) fn ld_r_n(&mut self, n: u8) -> (res: u8)
        ensures
            res == n,
            *final(self) == *old(self),
    {
        n
    }

    pub(crate) fn ld_rr_nn(&mut self, nn: u16) -> (res: u16)
        ensures
            res == nn,
            *final(self) == *old(self),
    {
        nn
    }

    /// Writes `r` at address `rr`.
    pub(crate) fn ld_rr_r(&mut self, rr: u16, r: u8, memory: &mut Memory)
        requires
            old(memory)@.wf(),
            old(memory)@.write_ok(rr, r),
        ensures
            writes(old(memory)@, final(memory)@, rr, r),
            final(memory)@.wf(),
            *final(self) == *old(self),
    {
        memory.write_byte(rr, r);
    }

    /// Reads the byte at address `rr`.
    pub(crate) fn ld_r_rr(&mut self, rr: u16, memory: &Memory) -> (res: u8)
        requires
            memory@.wf(),
            readable(rr),
        ensures
            res == memory@.read(rr),
            *final(self) == *old(self),
    {
        memory.read_byte(rr)
    }

    /// Writes `r` at the address in HL.
    pub(crate) fn ld_hl_r(&mut self, r: u8, memory: &mut Memory)
        requires
            old(memory)@.wf(),
            old(memory)@.write_ok(old(self).hl(), r),
        ensures
            writes(old(memory)@, final(memory)@, old(self).hl(), r),
            final(memory)@.wf(),
            *final(self) == *old(self),
    {
        memory.write_byte(self.registers.get_hl(), r);
    }

    /// Reads the byte at the address in HL.
    pub(crate) fn ld_r_hl(&mut self, memory: &Memory) -> (res: u8)
        requires
            memory@.wf(),
            readable(old(self).hl()),
        ensures
            res == memory@.read(old(self).hl()),
            *final(self) == *old(self),
    {
        memory.read_byte(self.registers.get_hl())
    }

    /// Pushes a word: the stack pointer drops by two (wrapping) and the word is
    /// written there.
    pub fn push(&mut self, nn: u16, memory: &mut Memory)
        requires
            old(memory)@.wf(),
            old(memory)@.word_write_ok(old(self).pushed_sp(), nn),
        ensures
            pushes(*old(self), old(memory)@, nn, final(memory)@),
            *final(self) == old(self).with_sp(old(self).pushed_sp()),
            final(memory)@.wf(),
    {
        self.registers.sp = self.registers.sp.wrapping_sub(2);
        memory.write_word(self.registers.sp, nn);
    }

    pub(crate) fn push_nn(&mut self, rr: u16, memory: &mut Memory)
        requires
            old(memory)@.wf(),
            old(memory)@.word_write_ok(old(self).pushed_sp(), rr),
        ensures
            pushes(*old(self), old(memory)@, rr, final(memory)@),
            *final(self) == old(self).with_sp(old(self).pushed_sp()),
            final(memory)@.wf(),
    {
        self.push(rr, memory);
    }

    /// Pops a word: reads it at the stack pointer, which then rises by two (wrapping).
    pub fn pop(&mut self, memory: &Memory) -> (r: u16)
        requires
            memory@.wf(),
            can_pop(*old(self)),
        ensures
            (r, *final(self)) == old(self).popped(memory@),
    {
        let word = memory.read_word(self.registers.sp);
        self.registers.sp = self.registers.sp.wrapping_add(2);
        word
    }

    pub(crate) fn pop_nn(&mut self, memory: &Memory) -> (r: u16)
        requires
            memory@.wf(),
            can_pop(*old(self)),
        ensures
            (r, *final(self)) == old(self).popped(memory@),
    {
        self.pop(memory)
    }

    fn add(&mut self, n: u8)
        ensures
            *final(self) == old(self).after_alu(0, n),
    {
        let a = self.registers.a;
        let half_carry = a % 16 + n % 16 > 15;
        let full_carry = a as u16 + n as u16 > 255;
        self.registers.a = a.wrapping_add(n);
        self.registers.f.zero = self.registers.a == 0;
        self.registers.f.negative = false;
        self.registers.f.half_carry = half_carry;
        self.registers.f.full_carry = full_carry;
    }

    fn adc(&mut self, n: u8)
        ensures
            *final(self) == old(self).after_alu(1, n),
    {
        let carry: u8 = if self.registers.f.full_carry {
            1
        } else {
            0
        };
        let a = self.registers.a;
        let half_carry = a % 16 + n % 16 + carry > 15;
        let full_carry = a as u16 + n as u16 + carry as u16 > 255;
        self.registers.a = a.wrapping_add(n).wrapping_add(carry);
        self.registers.f.zero = self.registers.a == 0;
        self.registers.f.negative = false;
        self.registers.f.half_carry = half_carry;
        self.registers.f.full_carry = full_carry;
    }

    fn sub(&mut self, n: u8)
        ensures
            *final(self) == old(self).after_alu(2, n),
    {
        let a = self.registers.a;
        let half_carry = a % 16 < n % 16;
        let full_carry = a < n;
        let zero = a == n;
        self.registers.a = a.wrapping_sub(n);
        self.registers.f.half_carry = half_carry;
        self.registers.f.full_carry = full_carry;
        self.registers.f.zero = zero;
        self.registers.f.negative = true;
    }

    fn sbc(&mut self, n: u8)
        ensures
            *final(self) == old(self).after_alu(3, n),
    {
        let carry: u8 = if self.registers.f.full_carry {
            1
        } else {
            0
        };
        let a = self.registers.a;
        let result = a as i16 - n as i16 - carry as i16;
        let half_carry = (a % 16) as i16 - (n % 16) as i16 - (carry as i16) < 0;
        let full_carry = result < 0;
        self.registers.a = a.wrapping_sub(n).wrapping_sub(carry);
        self.registers.f.half_carry = half_carry;
        self.registers.f.full_carry = full_carry;
        self.registers.f.zero = self.registers.a == 0;
        self.registers.f.negative = true;
    }

    fn and(&mut self, n: u8)
        ensures
            *final(self) == old(self).after_alu(4, n),
    {
        self.registers.a = self.registers.a & n;
        self.registers.f.zero = self.registers.a == 0;
        self.registers.f.half_carry = true;
        self.registers.f.negative = false;
        self.registers.f.full_carry = false;
    }

    fn xor(&mut self, n: u8)
        ensures
            *final(self) == old(self).after_alu(5, n),
    {
        self.registers.a = self.registers.a ^ n;
        self.registers.f.zero = self.registers.a == 0;
        self.registers.f.negative = false;
        self.registers.f.half_carry = false;
        self.registers.f.full_carry = false;
    }

    fn or(&mut self, n: u8)
        ensures
            *final(self) == old(self).after_alu(6, n),
    {
        self.registers.a = self.registers.a | n;
        self.registers.f.zero = self.registers.a == 0;
        self.registers.f.negative = false;
        self.registers.f.full_carry = false;
        self.registers.f.half_carry = false;
    }

    fn cp(&mut self, n: u8)
        ensures
            *final(self) == old(self).after_alu(7, n),
    {
        let a = self.registers.a;
        let half_carry = a % 16 < n % 16;
        let overflow = a < n;
        self.registers.f.full_carry = overflow;
        self.registers.f.zero = a == n;
        self.registers.f.half_carry = half_carry;
        self.registers.f.negative = true;
    }

    /// One of the eight accumulator operations, by the operation field of the opcode.
    pub(crate) fn alu_n(&mut self, kind: u8, n: u8)
        requires
            kind < 8,
        ensures
            *final(self) == old(self).after_alu(kind as int, n),
    {
        if kind == 0 {
            self.add(n);
        } else if kind == 1 {
            self.adc(n);
        } else if kind == 2 {
            self.sub(n);
        } else if kind == 3 {
            self.sbc(n);
        } else if kind == 4 {
            self.and(n);
        } else if kind == 5 {
            self.xor(n);
        } else if kind == 6 {
            self.or(n);
        } else {
            self.cp(n);
        }
    }

    /// The accumulator operation `kind` on the byte at HL.
    pub(crate) fn alu_hl(&mut self, kind: u8, memory: &Memory)
        requires
            kind < 8,
            memory@.wf(),
            readable(old(self).hl()),
        ensures
            *final(self) == old(self).after_alu(kind as int, memory@.read(old(self).hl())),
    {
        let n = memory.read_byte(self.registers.get_hl());
        self.alu_n(kind, n);
    }

    pub(crate) fn inc(&mut self, n: u8) -> (r: u8)
        ensures
            r == wrap8(n + 1),
            *final(self) == old(self).with_flags(inc_flags(n, old(self).registers.f)),
    {
        let half_carry = n % 16 == 15;
        let n = n.wrapping_add(1);
        self.registers.f.zero = n == 0;
        self.registers.f.half_carry = half_carry;
        self.registers.f.negative = false;
        n
    }

    pub(crate) fn inc_r(&mut self, r: u8) -> (res: u8)
        ensures
            res == wrap8(r + 1),
            *final(self) == old(self).with_flags(inc_flags(r, old(self).registers.f)),
    {
        self.inc(r)
    }

    pub(crate) fn inc_rr(&mut self, rr: u16) -> (res: u16)
        ensures
            res == wrap16(rr + 1),
            *final(self) == *old(self),
    {
        rr.wrapping_add(1)
    }

    pub(crate) fn dec(&mut self, n: u8) -> (r: u8)
        ensures
            r == wrap8(n - 1),
            *final(self) == old(self).with_flags(dec_flags(n, old(self).registers.f)),
    {
        let half_carry = n % 16 == 0;
        let n = n.wrapping_sub(1);
        self.registers.f.zero = n == 0;
        self.registers.f.half_carry = half_carry;
        self.registers.f.negative = true;
        n
    }

    pub(crate) fn dec_r(&mut self, r: u8) -> (res: u8)
        ensures
            res == wrap8(r - 1),
            *final(self) == old(self).with_flags(dec_flags(r, old(self).registers.f)),
    {
        self.dec(r)
    }

    pub(crate) fn dec_rr(&mut self, rr: u16) -> (res: u16)
        ensures
            res == wrap16(rr - 1),
            *final(self) == *old(self),
    {
        rr.wrapping_sub(1)
    }

    /// Adds `rr` to HL.
    pub(crate) fn add_hl_rr(&mut self, rr: u16)
        ensures
            *final(self) == old(self).after_add_hl(rr),
    {
        let hl = self.registers.get_hl();
        let result = hl as u32 + rr as u32;
        let half_carry = hl % 0x1000 + rr % 0x1000 > 0xFFF;
        let full_carry = result > 0xFFFF;
        self.registers.set_hl(hl.wrapping_add(rr));
        self.registers.f.negative = false;
        self.registers.f.half_carry = half_carry;
        self.registers.f.full_carry = full_carry;
    }

    /// The stack pointer plus the signed byte `n`; sets the flags of that sum.
    pub(crate) fn add_sp(&mut self, n: u8) -> (r: u16)
        ensures
            r == sp_offset(old(self).registers.sp, n),
            *final(self) == old(self).with_flags(
                sp_offset_flags(old(self).registers.sp, n, old(self).registers.f),
            ),
    {
        let s: u16 = if n >= 128 {
            n as u16 + 0xFF00
        } else {
            n as u16
        };
        let sp = self.registers.sp;
        let half_carry = sp % 16 + (n % 16) as u16 > 15;
        let full_carry = sp % 256 + n as u16 > 255;
        self.registers.f.zero = false;
        self.registers.f.negative = false;
        self.registers.f.half_carry = half_carry;
        self.registers.f.full_carry = full_carry;
        sp.wrapping_add(s)
    }

    /// Rotates left circularly; sets the carry to the bit that left.
    pub(crate) fn rlc(&mut self, n: u8) -> (r: u8)
        ensures
            r == shift(0, n, old(self).registers.f).0,
            *final(self) == old(self).with_flags(
                Flag { full_carry: shift(0, n, old(self).registers.f).1, ..old(self).registers.f },
            ),
    {
        let left_bit = n >= 128;
        let r = (n % 128) * 2 + n / 128;
        self.registers.f.full_carry = left_bit;
        r
    }

    /// Rotates right circularly; sets the carry to the bit that left.
    pub(crate) fn rrc(&mut self, n: u8) -> (r: u8)
        ensures
            r == shift(1, n, old(self).registers.f).0,
            *final(self) == old(self).with_flags(
                Flag { full_carry: shift(1, n, old(self).registers.f).1, ..old(self).registers.f },
            ),
    {
        let right_bit = n % 2 == 1;
        let r = n / 2 + (n % 2) * 128;
        self.registers.f.full_carry = right_bit;
        r
    }

    /// Rotates left through the carry.
    pub(crate) fn rl(&mut self, n: u8) -> (r: u8)
        ensures
            r == shift(2, n, old(self).registers.f).0,
            *final(self) == old(self).with_flags(
                Flag { full_carry: shift(2, n, old(self).registers.f).1, ..old(self).registers.f },
            ),
    {
        let left_bit = n >= 128;
        let carry: u8 = if self.registers.f.full_carry {
            1
        } else {
            0
        };
        let r = (n % 128) * 2 + carry;
        self.registers.f.full_carry = left_bit;
        r
    }

    /// Rotates right through the carry.
    pub(crate) fn rr(&mut self, n: u8) -> (r: u8)
        ensures
            r == shift(3, n, old(self).registers.f).0,
            *final(self) == old(self).with_flags(
                Flag { full_carry: shift(3, n, old(self).registers.f).1, ..old(self).registers.f },
            ),
    {
        let right_bit = n % 2 == 1;
        let carry: u8 = if self.registers.f.full_carry {
            1
        } else {
            0
        };
        let r = n / 2 + carry * 128;
        self.registers.f.full_carry = right_bit;
        r
    }

    /// Shifts left; bit 0 becomes zero.
    pub(crate) fn sla(&mut self, n: u8) -> (r: u8)
        ensures
            r == shift(4, n, old(self).registers.f).0,
            *final(self) == old(self).with_flags(shift_flags(4, n, old(self).registers.f)),
    {
        let left_bit = n >= 128;
        let n = (n % 128) * 2;
        self.registers.f.full_carry = left_bit;
        self.registers.f.zero = n == 0;
        self.registers.f.negative = false;
        self.registers.f.half_carry = false;
        n
    }

    /// Shifts right keeping bit 7.
    pub(crate) fn sra(&mut self, n: u8) -> (r: u8)
        ensures
            r == shift(5, n, old(self).registers.f).0,
            *final(self) == old(self).with_flags(shift_flags(5, n, old(self).registers.f)),
    {
        let left = (n / 128) * 128;
        let right_bit = n % 2 == 1;
        let n = n / 2 + left;
        self.registers.f.full_carry = right_bit;
        self.registers.f.zero = n == 0;
        self.registers.f.negative = false;
        self.registers.f.half_carry = false;
        n
    }

    /// Exchanges the two nibbles.
    pub(crate) fn swap(&mut self, n: u8) -> (r: u8)
        ensures
            r == shift(6, n, old(self).registers.f).0,
            *final(self) == old(self).with_flags(shift_flags(6, n, old(self).registers.f)),
    {
        let high = n / 16;
        let low = n % 16;
        let n = low * 16 + high;
        self.registers.f.zero = n == 0;
        self.registers.f.negative = false;
        self.registers.f.half_carry = false;
        self.registers.f.full_carry = false;
        n
    }

    /// Shifts right; bit 7 becomes zero.
    pub(crate) fn srl(&mut self, n: u8) -> (r: u8)
        ensures
            r == shift(7, n, old(self).registers.f).0,
            *final(self) == old(self).with_flags(shift_flags(7, n, old(self).registers.f)),
    {
        let first = n % 2 == 1;
        let n = n / 2;
        self.registers.f.full_carry = first;
        self.registers.f.zero = n == 0;
        self.registers.f.half_carry = false;
        self.registers.f.negative = false;
        n
    }

    /// One of the eight prefixed rotates and shifts with its flags, by operation field.
    pub(crate) fn shift_n(&mut self, kind: u8, n: u8) -> (r: u8)
        requires
            kind < 8,
        ensures
            r == shift(kind as int, n, old(self).registers.f).0,
            *final(self) == old(self).with_flags(shift_flags(kind as int, n, old(self).registers.f)),
    {
        if kind == 4 {
            self.sla(n)
        } else if kind == 5 {
            self.sra(n)
        } else if kind == 6 {
            self.swap(n)
        } else if kind == 7 {
            self.srl(n)
        } else {
            let r = if kind == 0 {
                self.rlc(n)
            } else if kind == 1 {
                self.rrc(n)
            } else if kind == 2 {
                self.rl(n)
            } else {
                self.rr(n)
            };
            self.registers.f.zero = r == 0;
            self.registers.f.negative = false;
            self.registers.f.half_carry = false;
            r
        }
    }

    /// Tests bit `i` of `n`.
    pub(crate) fn bit_i(&mut self, i: u8, n: u8)
        requires
            i < 8,
        ensures
            *final(self) == old(self).with_flags(bit_flags(n, i, old(self).registers.f)),
    {
        self.registers.f.half_carry = true;
        self.registers.f.negative = false;
        self.registers.f.zero = !bit_utils::is_set(n, i);
    }

    pub(crate) fn set_i(&mut self, i: u8, n: u8) -> (r: u8)
        requires
            i < 8,
        ensures
            r == bit_utils::with_bit_spec(n, i),
            *final(self) == *old(self),
    {
        bit_utils::set_bit(n, i)
    }

    pub(crate) fn res_i(&mut self, i: u8, n: u8) -> (r: u8)
        requires
            i < 8,
        ensures
            r == bit_utils::without_bit_spec(n, i),
            *final(self) == *old(self),
    {
        bit_utils::unset_bit(n, i)
    }

    /// Calls `nn`: pushes the program counter and jumps.
    pub(crate) fn call_nn(&mut self, nn: u16, memory: &mut Memory)
        requires
            old(memory)@.wf(),
            old(memory)@.word_write_ok(old(self).pushed_sp(), old(self).registers.pc),
        ensures
            pushes(*old(self), old(memory)@, old(self).registers.pc, final(memory)@),
            *final(self) == old(self).with_sp(old(self).pushed_sp()).with_pc(nn),
            final(memory)@.wf(),
    {
        self.push(self.registers.pc, memory);
        self.registers.pc = nn;
    }

    /// Calls `nn` when `cc` holds, taking 24 cycles then.
    pub(crate) fn call_cc_nn(&mut self, cc: bool, nn: u16, memory: &mut Memory)
        requires
            old(memory)@.wf(),
            cc ==> old(memory)@.word_write_ok(old(self).pushed_sp(), old(self).registers.pc),
        ensures
            cc ==> pushes(*old(self), old(memory)@, old(self).registers.pc, final(memory)@)
                && *final(self) == old(self).with_sp(old(self).pushed_sp()).with_pc(nn).with_cycle(24),
            !cc ==> *final(self) == *old(self) && final(memory)@ == old(memory)@,
            final(memory)@.wf(),
    {
        if cc {
            self.push(self.registers.pc, memory);
            self.registers.pc = nn;
            self.instruction_cycle = 24;
        }
    }

    /// Restarts at the fixed address `n`: pushes the program counter and jumps.
    pub(crate) fn rst_n(&mut self, n: u8, memory: &mut Memory)
        requires
            old(memory)@.wf(),
            old(memory)@.word_write_ok(old(self).pushed_sp(), old(self).registers.pc),
        ensures
            pushes(*old(self), old(memory)@, old(self).registers.pc, final(memory)@),
            *final(self) == old(self).with_sp(old(self).pushed_sp()).with_pc(n as u16),
            final(memory)@.wf(),
    {
        self.push(self.registers.pc, memory);
        self.registers.pc = n as u16;
    }

    /// Returns: pops the program counter; takes 16 cycles.
    pub(crate) fn ret(&mut self, memory: &Memory)
        requires
            memory@.wf(),
            can_pop(*old(self)),
        ensures
            *final(self) == old(self).popped(memory@).1.with_pc(old(self).popped(memory@).0).with_cycle(16),
    {
        self.registers.pc = self.pop(memory);
        self.instruction_cycle = 16;
    }

    /// Returns when `cc` holds, taking 20 cycles then.
    pub(crate) fn ret_cc(&mut self, cc: bool, memory: &Memory)
        requires
            memory@.wf(),
            cc ==> can_pop(*old(self)),
        ensures
            *final(self) == (if cc {
                old(self).popped(memory@).1.with_pc(old(self).popped(memory@).0).with_cycle(20)
            } else {
                *old(self)
            }),
    {
        if cc {
            self.registers.pc = self.pop(memory);
            self.instruction_cycle = 20;
        }
    }

    /// Jumps to `nn` when `cc` holds, taking 16 cycles then.
    pub(crate) fn jp_cc_nn(&mut self, cc: bool, nn: u16)
        ensures
            *final(self) == (if cc {
                old(self).with_pc(nn).with_cycle(16)
            } else {
                *old(self)
            }),
    {
        if cc {
            self.registers.pc = nn;
            self.instruction_cycle = 16;
        }
    }

    /// The program counter moved by the signed byte `n`.
    fn relative_target(&self, n: u8) -> (r: u16)
        ensures
            r == self.after_jr(n).registers.pc,
    {
        let s: u16 = if n >= 128 {
            n as u16 + 0xFF00
        } else {
            n as u16
        };
        self.registers.pc.wrapping_add(s)
    }

    pub(crate) fn jr_n(&mut self, n: u8)
        ensures
            *final(self) == old(self).after_jr(n),
    {
        self.registers.pc = self.relative_target(n);
    }

    /// Jumps relative by `n` when `cc` holds, taking 12 cycles then.
    pub(crate) fn jr_cc_n(&mut self, cc: bool, n: u8)
        ensures
            *final(self) == (if cc {
                old(self).after_jr(n).with_cycle(12)
            } else {
                *old(self)
            }),
    {
        if cc {
            self.registers.pc = self.relative_target(n);
            self.instruction_cycle = 12;
        }
    }
}

} // verus!
