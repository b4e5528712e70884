use vstd::prelude::*;
use crate::cpu::Cpu;
use crate::cpu::alu::{wrap8, wrap16, sext, alu, inc_flags, dec_flags, shift, shift_flags, rotate_a_flags, bit_flags, bit_written, daa_value, daa_flags, add_hl_flags, sp_offset, sp_offset_flags, lemma_shift_bits};
use crate::cpu::flag::{Flag, flag_of};
use crate::cpu::registers::{Registers, high_byte, low_byte, pair};
use crate::mmu::memory::{MemoryView, add16, readable, writes, writes_word, plain_ram, lemma_word_read_after_write};

verus! {

impl Cpu {
    /// The 8-bit register named by a register field of an opcode:
    /// B, C, D, E, H, L, (unused), A.
    pub open spec fn reg8(self, i: int) -> u8 {
        let r = self.registers;
        if i == 0 {
            r.b
        } else if i == 1 {
            r.c
        } else if i == 2 {
            r.d
        } else if i == 3 {
            r.e
        } else if i == 4 {
            r.h
        } else if i == 5 {
            r.l
        } else {
            r.a
        }
    }

    pub open spec fn with_reg8(self, i: int, v: u8) -> Cpu {
        let r = self.registers;
        Cpu {
            registers: if i == 0 {
                Registers { b: v, ..r }
            } else if i == 1 {
                Registers { c: v, ..r }
            } else if i == 2 {
                Registers { d: v, ..r }
            } else if i == 3 {
                Registers { e: v, ..r }
            } else if i == 4 {
                Registers { h: v, ..r }
            } else if i == 5 {
                Registers { l: v, ..r }
            } else {
                Registers { a: v, ..r }
            },
            ..self
        }
    }

    /// The 16-bit register named by a pair field of an opcode: BC, DE, HL, SP.
    pub open spec fn pair16(self, p: int) -> u16 {
        if p == 0 {
            self.registers.bc()
        } else if p == 1 {
            self.registers.de()
        } else if p == 2 {
            self.registers.hl()
        } else {
            self.registers.sp
        }
    }

    pub open spec fn with_pair16(self, p: int, v: u16) -> Cpu {
        let r = self.registers;
        Cpu {
            registers: if p == 0 {
                Registers { b: high_byte(v), c: low_byte(v), ..r }
            } else if p == 1 {
                Registers { d: high_byte(v), e: low_byte(v), ..r }
            } else if p == 2 {
                Registers { h: high_byte(v), l: low_byte(v), ..r }
            } else {
                Registers { sp: v, ..r }
            },
            ..self
        }
    }

    pub open spec fn with_flags(self, f: Flag) -> Cpu {
        Cpu { registers: Registers { f, ..self.registers }, ..self }
    }

    pub open spec fn with_pc(self, pc: u16) -> Cpu {
        Cpu { registers: Registers { pc, ..self.registers }, ..self }
    }

    pub open spec fn with_sp(self, sp: u16) -> Cpu {
        Cpu { registers: Registers { sp, ..self.registers }, ..self }
    }

    pub open spec fn with_cycle(self, cycles: i32) -> Cpu {
        Cpu { instruction_cycle: cycles, ..self }
    }

    pub open spec fn hl(self) -> u16 {
        self.registers.hl()
    }

    /// The operand named by a register field: a register, or the byte at HL for field 6.
    pub open spec fn operand(self, m: MemoryView, i: int) -> u8 {
        if i == 6 {
            m.read(self.hl())
        } else {
            self.reg8(i)
        }
    }

    /// One of the four branch conditions: not zero, zero, no carry, carry.
    pub open spec fn condition(self, k: int) -> bool {
        let f = self.registers.f;
        if k == 0 {
            !f.zero
        } else if k == 1 {
            f.zero
        } else if k == 2 {
            !f.full_carry
        } else {
            f.full_carry
        }
    }

    /// An accumulator operation on `v`.
    pub open spec fn after_alu(self, kind: int, v: u8) -> Cpu {
        let (a, f) = alu(kind, self.registers.a, v, self.registers.f);
        self.with_flags(f).with_reg8(7, a)
    }

    pub open spec fn after_inc(self, i: int) -> Cpu {
        let v = self.reg8(i);
        self.with_flags(inc_flags(v, self.registers.f)).with_reg8(i, wrap8(v + 1))
    }

    pub open spec fn after_dec(self, i: int) -> Cpu {
        let v = self.reg8(i);
        self.with_flags(dec_flags(v, self.registers.f)).with_reg8(i, wrap8(v - 1))
    }

    /// A prefixed rotate or shift of register `i`.
    pub open spec fn after_shift(self, kind: int, i: int) -> Cpu {
        let v = self.reg8(i);
        self.with_flags(shift_flags(kind, v, self.registers.f)).with_reg8(i, shift(kind, v, self.registers.f).0)
    }

    /// One of the four unprefixed accumulator rotates.
    pub open spec fn after_rotate_a(self, kind: int) -> Cpu {
        let v = self.registers.a;
        self.with_flags(rotate_a_flags(kind, v, self.registers.f)).with_reg8(7, shift(kind, v, self.registers.f).0)
    }

    pub open spec fn after_daa(self) -> Cpu {
        let a = self.registers.a;
        self.with_flags(daa_flags(a, self.registers.f)).with_reg8(7, wrap8(daa_value(a, self.registers.f)))
    }

    pub open spec fn after_cpl(self) -> Cpu {
        self.with_flags(Flag { negative: true, half_carry: true, ..self.registers.f }).with_reg8(7, !self.registers.a)
    }

    pub open spec fn after_scf(self) -> Cpu {
        self.with_flags(Flag { negative: false, half_carry: false, full_carry: true, ..self.registers.f })
    }

    pub open spec fn after_ccf(self) -> Cpu {
        let f = self.registers.f;
        self.with_flags(Flag { negative: false, half_carry: false, full_carry: !f.full_carry, ..f })
    }

    pub open spec fn after_add_hl(self, v: u16) -> Cpu {
        let hl = self.hl();
        self.with_flags(add_hl_flags(hl, v, self.registers.f)).with_pair16(2, wrap16(hl + v))
    }

    pub open spec fn after_add_sp(self, n: u8) -> Cpu {
        let sp = self.registers.sp;
        self.with_flags(sp_offset_flags(sp, n, self.registers.f)).with_sp(sp_offset(sp, n))
    }

    pub open spec fn after_ld_hl_sp(self, n: u8) -> Cpu {
        let sp = self.registers.sp;
        self.with_flags(sp_offset_flags(sp, n, self.registers.f)).with_pair16(2, sp_offset(sp, n))
    }

    /// A relative jump by a signed offset from the address after the instruction.
    pub open spec fn after_jr(self, n: u8) -> Cpu {
        self.with_pc(wrap16(self.registers.pc + sext(n)))
    }

    pub open spec fn after_halt(self) -> Cpu {
        if self.pending_enable_interrupts != -1 {
            Cpu {
                interrupt_enabled: true,
                pending_enable_interrupts: -1i32,
                ..self.with_pc(wrap16(self.registers.pc - 1))
            }
        } else if self.pending_disable_interrupts != -1 {
            Cpu {
                interrupt_enabled: false,
                pending_enable_interrupts: -1i32,
                ..self.with_pc(wrap16(self.registers.pc - 1))
            }
        } else {
            Cpu { halted: true, ..self }
        }
    }

    pub open spec fn after_di(self) -> Cpu {
        Cpu {
            pending_enable_interrupts: -1i32,
            pending_disable_interrupts: if self.pending_disable_interrupts == -1 {
                1i32
            } else {
                self.pending_disable_interrupts
            },
            ..self
        }
    }

    pub open spec fn after_ei(self) -> Cpu {
        Cpu {
            pending_disable_interrupts: -1i32,
            pending_enable_interrupts: if self.pending_enable_interrupts == -1 {
                1i32
            } else {
                self.pending_enable_interrupts
            },
            ..self
        }
    }

    /// The value at the top of the stack, and the processor with it popped.
    pub open spec fn popped(self, m: MemoryView) -> (u16, Cpu) {
        let sp = self.registers.sp;
        (m.read_word(sp), self.with_sp(wrap16(sp + 2)))
    }

    pub open spec fn after_reti(self, m: MemoryView) -> Cpu {
        let (v, c) = self.popped(m);
        Cpu {
            pending_disable_interrupts: -1i32,
            pending_enable_interrupts: -1i32,
            interrupt_enabled: true,
            ..c.with_pc(v).with_cycle(16)
        }
    }

    /// The stack pointer after a push.
    pub open spec fn pushed_sp(self) -> u16 {
        wrap16(self.registers.sp - 2)
    }

    /// STOP: on the color model with a speed switch armed in the key-1 register it
    /// switches the speed; otherwise it stops the processor.
    pub open spec fn after_stop(self, m: MemoryView) -> (Cpu, MemoryView) {
        if self.is_cgb && m.load(0xFF4D) % 2 == 1 {
            let speed = !self.cgb_speed;
            (Cpu { cgb_speed: speed, ..self }, m.stored(0xFF4D, if speed { 0x80u8 } else { 0x00u8 }))
        } else {
            (Cpu { stopped: true, ..self }, m)
        }
    }
}

/// How many immediate operand bytes follow an unprefixed opcode (0xCB counts its
/// second byte).
pub open spec fn operand_len(op: u8) -> int {
    if op == 0x01 || op == 0x11 || op == 0x21 || op == 0x31 || op == 0x08 || op == 0xC2 || op == 0xC3
        || op == 0xC4 || op == 0xCA || op == 0xCC || op == 0xCD || op == 0xD2 || op == 0xD4 || op
        == 0xDA || op == 0xDC || op == 0xEA || op == 0xFA {
        2
    } else if (op < 0x40 && op % 8 == 6) || op == 0x18 || op == 0x20 || op == 0x28 || op == 0x30 || op
        == 0x38 || (op >= 0xC0 && op % 8 == 6) || op == 0xCB || op == 0xE0 || op == 0xF0 || op == 0xE8
        || op == 0xF8 {
        1
    } else {
        0
    }
}

/// The opcodes that the processor does not define.
pub open spec fn undefined_opcode(op: u8) -> bool {
    op == 0xD3 || op == 0xDB || op == 0xDD || op == 0xE3 || op == 0xE4 || op == 0xEB || op == 0xEC
        || op == 0xED || op == 0xF4 || op == 0xFC || op == 0xFD
}

/// A write of `v` at `a` by the processor is carried out and leaves the processor as `c2`.
pub open spec fn stores(m: MemoryView, m2: MemoryView, a: u16, v: u8, c: Cpu, c2: Cpu) -> bool {
    writes(m, m2, a, v) && c2 == c
}

/// A push of `v`: the stack pointer drops by two and the word lands at its new
/// value; the processor then is `c.with_sp(c.pushed_sp())`.
pub open spec fn pushes(c: Cpu, m: MemoryView, v: u16, m2: MemoryView) -> bool {
    writes_word(m, m2, c.pushed_sp(), v)
}

/// Opcodes 0x00..=0x3F, with the operands `n` and `nn` already fetched and `c` past them.
pub open spec fn executes_low(c: Cpu, m: MemoryView, op: u8, n: u8, nn: u16, c2: Cpu, m2: MemoryView) -> bool {
    let p = op / 16;
    let i = op / 8;
    let a = c.registers.a;
    let hl = c.hl();
    if op == 0x00 {
        c2 == c && m2 == m
    } else if op % 16 == 1 {
        c2 == c.with_pair16(p as int, nn) && m2 == m
    } else if op == 0x02 || op == 0x12 {
        stores(m, m2, c.pair16(p as int), a, c, c2)
    } else if op == 0x22 {
        stores(m, m2, hl, a, c.with_pair16(2, wrap16(hl + 1)), c2)
    } else if op == 0x32 {
        stores(m, m2, hl, a, c.with_pair16(2, wrap16(hl - 1)), c2)
    } else if op % 16 == 3 {
        c2 == c.with_pair16(p as int, wrap16(c.pair16(p as int) + 1)) && m2 == m
    } else if op % 16 == 0xB {
        c2 == c.with_pair16(p as int, wrap16(c.pair16(p as int) - 1)) && m2 == m
    } else if op == 0x34 {
        let v = m.read(hl);
        stores(m, m2, hl, wrap8(v + 1), c.with_flags(inc_flags(v, c.registers.f)), c2)
    } else if op == 0x35 {
        let v = m.read(hl);
        stores(m, m2, hl, wrap8(v - 1), c.with_flags(dec_flags(v, c.registers.f)), c2)
    } else if op % 8 == 4 {
        c2 == c.after_inc(i as int) && m2 == m
    } else if op % 8 == 5 {
        c2 == c.after_dec(i as int) && m2 == m
    } else if op == 0x36 {
        stores(m, m2, hl, n, c, c2)
    } else if op % 8 == 6 {
        c2 == c.with_reg8(i as int, n) && m2 == m
    } else if op == 0x07 || op == 0x0F || op == 0x17 || op == 0x1F {
        c2 == c.after_rotate_a(i as int) && m2 == m
    } else if op == 0x27 {
        c2 == c.after_daa() && m2 == m
    } else if op == 0x2F {
        c2 == c.after_cpl() && m2 == m
    } else if op == 0x37 {
        c2 == c.after_scf() && m2 == m
    } else if op == 0x3F {
        c2 == c.after_ccf() && m2 == m
    } else if op == 0x08 {
        writes_word(m, m2, nn, c.registers.sp) && c2 == c
    } else if op % 16 == 9 {
        c2 == c.after_add_hl(c.pair16(p as int)) && m2 == m
    } else if op == 0x0A || op == 0x1A {
        c2 == c.with_reg8(7, m.read(c.pair16(p as int))) && m2 == m
    } else if op == 0x2A {
        c2 == c.with_reg8(7, m.read(hl)).with_pair16(2, wrap16(hl + 1)) && m2 == m
    } else if op == 0x3A {
        c2 == c.with_reg8(7, m.read(hl)).with_pair16(2, wrap16(hl - 1)) && m2 == m
    } else if op == 0x10 {
        (c2, m2) == c.after_stop(m)
    } else if op == 0x18 {
        c2 == c.after_jr(n) && m2 == m
    } else {
        m2 == m && c2 == (if c.condition(i as int - 4) {
            c.after_jr(n).with_cycle(12)
        } else {
            c
        })
    }
}

/// Opcodes 0x40..=0x7F: register loads, loads through HL, and HALT (0x76).
pub open spec fn executes_load(c: Cpu, m: MemoryView, op: u8, c2: Cpu, m2: MemoryView) -> bool {
    let dst = (op - 0x40) / 8;
    let src = op % 8;
    if op == 0x76 {
        c2 == c.after_halt() && m2 == m
    } else if dst == 6 {
        stores(m, m2, c.hl(), c.reg8(src as int), c, c2)
    } else {
        c2 == c.with_reg8(dst as int, c.operand(m, src as int)) && m2 == m
    }
}

/// Opcodes 0xC0..=0xFF except the prefix 0xCB.
pub open spec fn executes_high(c: Cpu, m: MemoryView, op: u8, n: u8, nn: u16, c2: Cpu, m2: MemoryView) -> bool {
    let k = (op - 0xC0) / 8;
    let p = (op - 0xC0) / 16;
    let (top, popped) = c.popped(m);
    let a = c.registers.a;
    if op == 0xC0 || op == 0xC8 || op == 0xD0 || op == 0xD8 {
        m2 == m && c2 == (if c.condition(k as int) {
            popped.with_pc(top).with_cycle(20)
        } else {
            c
        })
    } else if op == 0xF1 {
        m2 == m && c2 == Cpu {
            registers: Registers { a: high_byte(top), f: flag_of(low_byte(top)), ..popped.registers },
            ..popped
        }
    } else if op % 16 == 1 {
        m2 == m && c2 == popped.with_pair16(p as int, top)
    } else if op == 0xC2 || op == 0xCA || op == 0xD2 || op == 0xDA {
        m2 == m && c2 == (if c.condition(k as int) {
            c.with_pc(nn).with_cycle(16)
        } else {
            c
        })
    } else if op == 0xC3 {
        m2 == m && c2 == c.with_pc(nn)
    } else if op == 0xC4 || op == 0xCC || op == 0xD4 || op == 0xDC {
        if c.condition(k as int) {
            pushes(c, m, c.registers.pc, m2) && c2 == c.with_sp(c.pushed_sp()).with_pc(nn).with_cycle(24)
        } else {
            c2 == c && m2 == m
        }
    } else if op == 0xF5 {
        pushes(c, m, c.registers.af(), m2) && c2 == c.with_sp(c.pushed_sp())
    } else if op % 16 == 5 {
        pushes(c, m, c.pair16(p as int), m2) && c2 == c.with_sp(c.pushed_sp())
    } else if op % 8 == 6 {
        m2 == m && c2 == c.after_alu(k as int, n)
    } else if op % 8 == 7 {
        pushes(c, m, c.registers.pc, m2) && c2 == c.with_sp(c.pushed_sp()).with_pc((op - 0xC7) as u16)
    } else if op == 0xC9 {
        m2 == m && c2 == popped.with_pc(top).with_cycle(16)
    } else if op == 0xCD {
        pushes(c, m, c.registers.pc, m2) && c2 == c.with_sp(c.pushed_sp()).with_pc(nn)
    } else if op == 0xD9 {
        m2 == m && c2 == c.after_reti(m)
    } else if op == 0xE0 {
        stores(m, m2, (0xFF00 + n) as u16, a, c, c2)
    } else if op == 0xE2 {
        stores(m, m2, (0xFF00 + c.registers.c) as u16, a, c, c2)
    } else if op == 0xEA {
        stores(m, m2, nn, a, c, c2)
    } else if op == 0xF0 {
        m2 == m && c2 == c.with_reg8(7, m.read((0xFF00 + n) as u16))
    } else if op == 0xF2 {
        m2 == m && c2 == c.with_reg8(7, m.read((0xFF00 + c.registers.c) as u16))
    } else if op == 0xFA {
        m2 == m && c2 == c.with_reg8(7, m.read(nn))
    } else if op == 0xE8 {
        m2 == m && c2 == c.after_add_sp(n)
    } else if op == 0xF8 {
        m2 == m && c2 == c.after_ld_hl_sp(n)
    } else if op == 0xE9 {
        m2 == m && c2 == c.with_pc(c.hl())
    } else if op == 0xF9 {
        m2 == m && c2 == c.with_sp(c.hl())
    } else if op == 0xF3 {
        m2 == m && c2 == c.after_di()
    } else if op == 0xFB {
        m2 == m && c2 == c.after_ei()
    } else {
        m2 == m && c2 == c
    }
}

/// The byte that a prefixed opcode other than a bit test leaves in its operand.
pub open spec fn cb_result(c: Cpu, m: MemoryView, op: u8) -> u8 {
    let g = op / 8;
    let v = c.operand(m, (op % 8) as int);
    if g < 8 {
        shift(g as int, v, c.registers.f).0
    } else {
        bit_written(v, (g % 8) as u8, g >= 24)
    }
}

/// A prefixed opcode (the byte after 0xCB): rotates and shifts, bit tests, bit
/// clears and bit sets, on a register or on the byte at HL (register field 6).
pub open spec fn executes_cb(c: Cpu, m: MemoryView, op: u8, c2: Cpu, m2: MemoryView) -> bool {
    let i = op % 8;
    let g = op / 8;
    let v = c.operand(m, i as int);
    let f = c.registers.f;
    if 8 <= g < 16 {
        m2 == m && c2 == c.with_flags(bit_flags(v, (g - 8) as u8, f))
    } else {
        let c1 = if g < 8 {
            c.with_flags(shift_flags(g as int, v, f))
        } else {
            c
        };
        if i == 6 {
            stores(m, m2, c.hl(), cb_result(c, m, op), c1, c2)
        } else {
            m2 == m && c2 == c1.with_reg8(i as int, cb_result(c, m, op))
        }
    }
}

/// The reads and writes of a prefixed opcode can be carried out.
pub open spec fn can_execute_cb(c: Cpu, m: MemoryView, op: u8) -> bool {
    let g = op / 8;
    op % 8 == 6 ==> readable(c.hl()) && (8 <= g < 16 || m.write_ok(c.hl(), cb_result(c, m, op)))
}

pub open spec fn can_execute_low(c: Cpu, m: MemoryView, op: u8, n: u8, nn: u16) -> bool {
    let hl = c.hl();
    let a = c.registers.a;
    if op == 0x02 || op == 0x12 {
        m.write_ok(c.pair16((op / 16) as int), a)
    } else if op == 0x22 || op == 0x32 {
        m.write_ok(hl, a)
    } else if op == 0x34 {
        readable(hl) && m.write_ok(hl, wrap8(m.read(hl) + 1))
    } else if op == 0x35 {
        readable(hl) && m.write_ok(hl, wrap8(m.read(hl) - 1))
    } else if op == 0x36 {
        m.write_ok(hl, n)
    } else if op == 0x08 {
        m.word_write_ok(nn, c.registers.sp)
    } else if op == 0x0A || op == 0x1A {
        readable(c.pair16((op / 16) as int))
    } else if op == 0x2A || op == 0x3A {
        readable(hl)
    } else {
        true
    }
}

pub open spec fn can_execute_load(c: Cpu, m: MemoryView, op: u8) -> bool {
    let dst = (op - 0x40) / 8;
    let src = op % 8;
    if op == 0x76 {
        true
    } else if dst == 6 {
        m.write_ok(c.hl(), c.reg8(src as int))
    } else {
        src == 6 ==> readable(c.hl())
    }
}

pub open spec fn can_pop(c: Cpu) -> bool {
    readable(c.registers.sp) && readable(add16(c.registers.sp, 1))
}

pub open spec fn can_execute_high(c: Cpu, m: MemoryView, op: u8, n: u8, nn: u16) -> bool {
    let k = (op - 0xC0) / 8;
    let p = (op - 0xC0) / 16;
    let a = c.registers.a;
    if op == 0xC0 || op == 0xC8 || op == 0xD0 || op == 0xD8 {
        c.condition(k as int) ==> can_pop(c)
    } else if op % 16 == 1 || op == 0xC9 || op == 0xD9 {
        can_pop(c)
    } else if op == 0xC4 || op == 0xCC || op == 0xD4 || op == 0xDC {
        c.condition(k as int) ==> m.word_write_ok(c.pushed_sp(), c.registers.pc)
    } else if op == 0xF5 {
        m.word_write_ok(c.pushed_sp(), c.registers.af())
    } else if op % 16 == 5 {
        m.word_write_ok(c.pushed_sp(), c.pair16(p as int))
    } else if op % 8 == 7 || op == 0xCD {
        m.word_write_ok(c.pushed_sp(), c.registers.pc)
    } else if op == 0xE0 {
        m.write_ok((0xFF00 + n) as u16, a)
    } else if op == 0xE2 {
        m.write_ok((0xFF00 + c.registers.c) as u16, a)
    } else if op == 0xEA {
        m.write_ok(nn, a)
    } else if op == 0xF0 {
        readable((0xFF00 + n) as u16)
    } else if op == 0xF2 {
        readable((0xFF00 + c.registers.c) as u16)
    } else if op == 0xFA {
        readable(nn)
    } else {
        true
    }
}

/// The reads and writes of opcode `op` can be carried out: its operands and every
/// address it reads are readable, and each write is one that memory carries out.
#[verifier::opaque]
pub open spec fn can_execute(c: Cpu, m: MemoryView, op: u8) -> bool {
    let pc = c.registers.pc;
    let n = m.read(pc);
    let nn = m.read_word(pc);
    let c1 = c.with_pc(add16(pc, operand_len(op)));
    &&& (operand_len(op) >= 1 ==> readable(pc))
    &&& (operand_len(op) == 2 ==> readable(add16(pc, 1)))
    &&& if op < 0x40 {
        can_execute_low(c1, m, op, n, nn)
    } else if op < 0x80 {
        can_execute_load(c1, m, op)
    } else if op < 0xC0 {
        op % 8 == 6 ==> readable(c1.hl())
    } else if op == 0xCB {
        can_execute_cb(c1.with_cycle(cb_timing(n)), m, n)
    } else {
        can_execute_high(c1, m, op, n, nn)
    }
}

/// The processor executes opcode `op`, whose operands follow at the program counter,
/// taking `c` and `m` to `c2` and `m2`.
#[verifier::opaque]
pub open spec fn executes(c: Cpu, m: MemoryView, op: u8, c2: Cpu, m2: MemoryView) -> bool {
    let pc = c.registers.pc;
    let n = m.read(pc);
    let nn = m.read_word(pc);
    let c1 = c.with_pc(add16(pc, operand_len(op)));
    if op < 0x40 {
        executes_low(c1, m, op, n, nn, c2, m2)
    } else if op < 0x80 {
        executes_load(c1, m, op, c2, m2)
    } else if op < 0xC0 {
        m2 == m && c2 == c1.after_alu(((op - 0x80) / 8) as int, c1.operand(m, (op % 8) as int))
    } else if op == 0xCB {
        executes_cb(c1.with_cycle(cb_timing(n)), m, n, c2, m2)
    } else {
        executes_high(c1, m, op, n, nn, c2, m2)
    }
}

/// The cycles that a prefixed opcode takes.
pub open spec fn cb_timing(op: u8) -> i32 {
    if op % 8 != 6 {
        8
    } else if 0x40 <= op < 0x80 {
        12
    } else {
        16
    }
}

/// The cycles that each unprefixed opcode takes when no branch is taken.
#[verifier::opaque]
pub open spec fn instruction_timings() -> Seq<i32> {
    seq![
        4, 12, 8, 8, 4, 4, 8, 4, 20, 8, 8, 8, 4, 4, 8, 4,
        4, 12, 8, 8, 4, 4, 8, 4, 12, 8, 8, 8, 4, 4, 8, 4,
        8, 12, 8, 8, 4, 4, 8, 4, 8, 8, 8, 8, 4, 4, 8, 4,
        8, 12, 8, 8, 12, 12, 12, 4, 8, 8, 8, 8, 4, 4, 8, 4,
        4, 4, 4, 4, 4, 4, 8, 4, 4, 4, 4, 4, 4, 4, 8, 4,
        4, 4, 4, 4, 4, 4, 8, 4, 4, 4, 4, 4, 4, 4, 8, 4,
        4, 4, 4, 4, 4, 4, 8, 4, 4, 4, 4, 4, 4, 4, 8, 4,
        8, 8, 8, 8, 8, 8, 4, 8, 4, 4, 4, 4, 4, 4, 8, 4,
        4, 4, 4, 4, 4, 4, 8, 4, 4, 4, 4, 4, 4, 4, 8, 4,
        4, 4, 4, 4, 4, 4, 8, 4, 4, 4, 4, 4, 4, 4, 8, 4,
        4, 4, 4, 4, 4, 4, 8, 4, 4, 4, 4, 4, 4, 4, 8, 4,
        4, 4, 4, 4, 4, 4, 8, 4, 4, 4, 4, 4, 4, 4, 8, 4,
        8, 12, 12, 16, 12, 16, 8, 16, 8, 16, 12, 4, 12, 24, 8, 16,
        8, 12, 12, 0, 12, 16, 8, 16, 8, 16, 12, 0, 12, 0, 8, 16,
        12, 12, 8, 0, 0, 16, 8, 16, 16, 4, 16, 0, 0, 0, 8, 16,
        12, 12, 8, 4, 0, 16, 8, 16, 12, 8, 16, 4, 0, 0, 8, 16,
    ]
}

/// A pending EI or DI counts down one instruction; at zero it takes effect.
pub open spec fn pending_ticked(c: Cpu) -> Cpu {
    let c1 = if c.pending_enable_interrupts == -1 {
        c
    } else if c.pending_enable_interrupts == 0 {
        Cpu { pending_enable_interrupts: -1i32, interrupt_enabled: true, ..c }
    } else {
        Cpu { pending_enable_interrupts: (c.pending_enable_interrupts - 1) as i32, ..c }
    };
    if c1.pending_disable_interrupts == -1 {
        c1
    } else if c1.pending_disable_interrupts == 0 {
        Cpu { pending_disable_interrupts: -1i32, interrupt_enabled: false, ..c1 }
    } else {
        Cpu { pending_disable_interrupts: (c1.pending_disable_interrupts - 1) as i32, ..c1 }
    }
}

/// The processor about to execute the opcode at the program counter: pending
/// interrupt changes counted down, the opcode fetched and its cycles set.
pub open spec fn fetched(c: Cpu, m: MemoryView) -> Cpu {
    let c1 = pending_ticked(c);
    let op = m.read(c.registers.pc);
    c1.with_pc(add16(c.registers.pc, 1)).with_cycle(instruction_timings()[op as int])
}

/// The cycles a step reports: those of the instruction (four while halted), halved
/// at double speed (rounding toward zero).
pub open spec fn reported_cycles(c: Cpu) -> i32 {
    let n = c.instruction_cycle;
    if !c.cgb_speed {
        n
    } else if n >= 0 {
        (n / 2) as i32
    } else {
        (-((-n) / 2)) as i32
    }
}

/// A stopped processor wakes when a selected joypad line reads low (a low bit among
/// the four low bits of P1).
pub open spec fn woken(c: Cpu, m: MemoryView) -> Cpu {
    if c.stopped && m.joypad_read() % 16 != 15 {
        Cpu { stopped: false, ..c }
    } else {
        c
    }
}

/// A step can be carried out: unless halted or stopped once woken, the opcode at
/// the program counter is readable and defined, all that it reads is readable, and
/// its writes can be carried out.
pub open spec fn can_step(c: Cpu, m: MemoryView) -> bool {
    let c0 = woken(c, m);
    !c0.halted && !c0.stopped ==> {
        &&& readable(c0.registers.pc)
        &&& !undefined_opcode(m.read(c0.registers.pc))
        &&& can_execute(fetched(c0, m), m, m.read(c0.registers.pc))
    }
}

/// One step of the processor from `c` and `m`: a stopped processor may first wake;
/// while halted or stopped it only spends four cycles; otherwise it executes the
/// opcode at the program counter, and a HALT among them makes the step take four
/// cycles.
pub open spec fn steps(c: Cpu, m: MemoryView, c2: Cpu, m2: MemoryView) -> bool {
    let c0 = woken(c, m);
    if c0.halted || c0.stopped {
        c2 == c0.with_cycle(4) && m2 == m
    } else {
        exists|c1: Cpu|
            #[trigger] executes(fetched(c0, m), m, m.read(c0.registers.pc), c1, m2) && c2 == (if c1.halted {
                c1.with_cycle(4)
            } else {
                c1
            })
    }
}

/// SRA on a register (prefixed opcodes 0x28..=0x2F but 0x2E) shifts it right one
/// place keeping bit 7, gives out bit 0 as the carry, sets zero exactly for a zero
/// result, clears the other flags and leaves memory alone.
pub proof fn lemma_sra_register(c: Cpu, m: MemoryView, op: u8, c2: Cpu, m2: MemoryView)
    requires
        0x28 <= op <= 0x2F,
        op != 0x2E,
        executes_cb(c, m, op, c2, m2),
    ensures
        ({
            let v = c.reg8((op % 8) as int);
            let r = (v >> 1u8) | (v & 0x80);
            &&& c2.reg8((op % 8) as int) == r
            &&& c2.registers.f.full_carry == (v & 1 != 0)
            &&& c2.registers.f.zero == (r == 0)
            &&& !c2.registers.f.negative
            &&& !c2.registers.f.half_carry
            &&& m2 == m
        }),
{
    lemma_shift_bits(c.reg8((op % 8) as int), c.registers.f);
}

/// After `unhalt` (and unless stopped), the next step fetches and executes the
/// opcode at the program counter rather than idling.
pub proof fn lemma_unhalted_step_executes(c: Cpu, m: MemoryView, c2: Cpu, m2: MemoryView)
    requires
        !c.stopped,
        steps(Cpu { halted: false, ..c }, m, c2, m2),
    ensures
        exists|c1: Cpu|
            #[trigger] executes(fetched(Cpu { halted: false, ..c }, m), m, m.read(c.registers.pc), c1, m2) && (
            c2 == c1 || c2 == c1.with_cycle(4)),
{
}

/// A push followed by a pop, with the stack in plain RAM, gives back the value
/// pushed and leaves the processor as it was before the push.
pub proof fn lemma_push_then_pop(c: Cpu, m: MemoryView, v: u16, m1: MemoryView)
    requires
        m.wf(),
        plain_ram(c.pushed_sp()),
        plain_ram(add16(c.pushed_sp(), 1)),
        pushes(c, m, v, m1),
    ensures
        c.with_sp(c.pushed_sp()).popped(m1) == (v, c),
{
    lemma_word_read_after_write(m, m1, c.pushed_sp(), v);
}

} // verus!
