use vstd::prelude::*;
use crate::bit_utils::{with_bit_spec, without_bit_spec};
use crate::cpu::Cpu;
use crate::cpu::alu::{wrap8, wrap16, inc_flags, dec_flags, bit_flags};
use crate::cpu::flag::flag_of;
use crate::cpu::registers::{Registers, high_byte, low_byte};
use crate::cpu::semantics::{stores, pushes, can_pop, can_execute, can_execute_cb, executes, executes_cb};
use crate::mmu::memory::{Memory, readable, writes_word};

verus! {

impl Cpu {
    pub(crate) fn ret_nz(&mut self, memory: &Memory)
        requires
            memory@.wf(),
            old(self).condition(0) ==> can_pop(*old(self)),
        ensures
            *final(self) == (if old(self).condition(0) { old(self).popped(memory@).1.with_pc(old(self).popped(memory@).0).with_cycle(20) } else { *old(self) }),
    {
        let cc = !self.registers.f.zero;
        self.ret_cc(cc, memory);
    }

    pub(crate) fn ret_z(&mut self, memory: &Memory)
        requires
            memory@.wf(),
            old(self).condition(1) ==> can_pop(*old(self)),
        ensures
            *final(self) == (if old(self).condition(1) { old(self).popped(memory@).1.with_pc(old(self).popped(memory@).0).with_cycle(20) } else { *old(self) }),
    {
        let cc = self.registers.f.zero;
        self.ret_cc(cc, memory);
    }

    pub(crate) fn ret_nc(&mut self, memory: &Memory)
        requires
            memory@.wf(),
            old(self).condition(2) ==> can_pop(*old(self)),
        ensures
            *final(self) == (if old(self).condition(2) { old(self).popped(memory@).1.with_pc(old(self).popped(memory@).0).with_cycle(20) } else { *old(self) }),
    {
        let cc = !self.registers.f.full_carry;
        self.ret_cc(cc, memory);
    }

    pub(crate) fn ret_c(&mut self, memory: &Memory)
        requires
            memory@.wf(),
            old(self).condition(3) ==> can_pop(*old(self)),
        ensures
            *final(self) == (if old(self).condition(3) { old(self).popped(memory@).1.with_pc(old(self).popped(memory@).0).with_cycle(20) } else { *old(self) }),
    {
        let cc = self.registers.f.full_carry;
        self.ret_cc(cc, memory);
    }

    pub(crate) fn pop_bc(&mut self, memory: &Memory)
        requires
            memory@.wf(),
            can_pop(*old(self)),
        ensures
            *final(self) == old(self).popped(memory@).1.with_pair16(0, old(self).popped(memory@).0),
    {
        let bc = self.pop_nn(memory);
        self.registers.set_bc(bc);
    }

    pub(crate) fn pop_de(&mut self, memory: &Memory)
        requires
            memory@.wf(),
            can_pop(*old(self)),
        ensures
            *final(self) == old(self).popped(memory@).1.with_pair16(1, old(self).popped(memory@).0),
    {
        let de = self.pop_nn(memory);
        self.registers.set_de(de);
    }

    pub(crate) fn pop_hl(&mut self, memory: &Memory)
        requires
            memory@.wf(),
            can_pop(*old(self)),
        ensures
            *final(self) == old(self).popped(memory@).1.with_pair16(2, old(self).popped(memory@).0),
    {
        let hl = self.pop_nn(memory);
        self.registers.set_hl(hl);
    }

    pub(crate) fn pop_af(&mut self, memory: &Memory)
        requires
            memory@.wf(),
            can_pop(*old(self)),
        ensures
            *final(self) == (Cpu { registers: Registers { a: high_byte(old(self).popped(memory@).0), f: flag_of(low_byte(old(self).popped(memory@).0)), ..old(self).popped(memory@).1.registers }, ..old(self).popped(memory@).1 }),
    {
        let nn = self.pop(memory);
        self.registers.set_af(nn);
    }

    pub(crate) fn jp_nz_nn(&mut self, nn: u16)
        ensures
            *final(self) == (if old(self).condition(0) { old(self).with_pc(nn).with_cycle(16) } else { *old(self) }),
    {
        let cc = !self.registers.f.zero;
        self.jp_cc_nn(cc, nn);
    }

    pub(crate) fn jp_z_nn(&mut self, nn: u16)
        ensures
            *final(self) == (if old(self).condition(1) { old(self).with_pc(nn).with_cycle(16) } else { *old(self) }),
    {
        let cc = self.registers.f.zero;
        self.jp_cc_nn(cc, nn);
    }

    pub(crate) fn jp_nc_nn(&mut self, nn: u16)
        ensures
            *final(self) == (if old(self).condition(2) { old(self).with_pc(nn).with_cycle(16) } else { *old(self) }),
    {
        let cc = !self.registers.f.full_carry;
        self.jp_cc_nn(cc, nn);
    }

    pub(crate) fn jp_c_nn(&mut self, nn: u16)
        ensures
            *final(self) == (if old(self).condition(3) { old(self).with_pc(nn).with_cycle(16) } else { *old(self) }),
    {
        let cc = self.registers.f.full_carry;
        self.jp_cc_nn(cc, nn);
    }

    pub(crate) fn jp_nn(&mut self, nn: u16)
        ensures
            *final(self) == old(self).with_pc(nn),
    {
        self.registers.pc = nn;
    }

    pub(crate) fn call_nz_nn(&mut self, memory: &mut Memory, nn: u16)
        requires
            old(memory)@.wf(),
            old(self).condition(0) ==> old(memory)@.word_write_ok(old(self).pushed_sp(), old(self).registers.pc),
        ensures
            old(self).condition(0) ==> pushes(*old(self), old(memory)@, old(self).registers.pc, final(memory)@) && *final(self) == old(self).with_sp(old(self).pushed_sp()).with_pc(nn).with_cycle(24),
            !old(self).condition(0) ==> *final(self) == *old(self) && final(memory)@ == old(memory)@,
            final(memory)@.wf(),
    {
        let cc = !self.registers.f.zero;
        self.call_cc_nn(cc, nn, memory);
    }

    pub(crate) fn call_z_nn(&mut self, nn: u16, memory: &mut Memory)
        requires
            old(memory)@.wf(),
            old(self).condition(1) ==> old(memory)@.word_write_ok(old(self).pushed_sp(), old(self).registers.pc),
        ensures
            old(self).condition(1) ==> pushes(*old(self), old(memory)@, old(self).registers.pc, final(memory)@) && *final(self) == old(self).with_sp(old(self).pushed_sp()).with_pc(nn).with_cycle(24),
            !old(self).condition(1) ==> *final(self) == *old(self) && final(memory)@ == old(memory)@,
            final(memory)@.wf(),
    {
        let cc = self.registers.f.zero;
        self.call_cc_nn(cc, nn, memory);
    }

    pub(crate) fn call_nc_nn(&mut self, nn: u16, memory: &mut Memory)
        requires
            old(memory)@.wf(),
            old(self).condition(2) ==> old(memory)@.word_write_ok(old(self).pushed_sp(), old(self).registers.pc),
        ensures
            old(self).condition(2) ==> pushes(*old(self), old(memory)@, old(self).registers.pc, final(memory)@) && *final(self) == old(self).with_sp(old(self).pushed_sp()).with_pc(nn).with_cycle(24),
            !old(self).condition(2) ==> *final(self) == *old(self) && final(memory)@ == old(memory)@,
            final(memory)@.wf(),
    {
        let cc = !self.registers.f.full_carry;
        self.call_cc_nn(cc, nn, memory);
    }

    pub(crate) fn call_c_nn(&mut self, nn: u16, memory: &mut Memory)
        requires
            old(memory)@.wf(),
            old(self).condition(3) ==> old(memory)@.word_write_ok(old(self).pushed_sp(), old(self).registers.pc),
        ensures
            old(self).condition(3) ==> pushes(*old(self), old(memory)@, old(self).registers.pc, final(memory)@) && *final(self) == old(self).with_sp(old(self).pushed_sp()).with_pc(nn).with_cycle(24),
            !old(self).condition(3) ==> *final(self) == *old(self) && final(memory)@ == old(memory)@,
            final(memory)@.wf(),
    {
        let cc = self.registers.f.full_carry;
        self.call_cc_nn(cc, nn, memory);
    }

    pub(crate) fn push_bc(&mut self, memory: &mut Memory)
        requires
            old(memory)@.wf(),
            old(memory)@.word_write_ok(old(self).pushed_sp(), old(self).pair16(0)),
        ensures
            pushes(*old(self), old(memory)@, old(self).pair16(0), final(memory)@),
            *final(self) == old(self).with_sp(old(self).pushed_sp()),
            final(memory)@.wf(),
    {
        let bc = self.registers.get_bc();
        self.push_nn(bc, memory);
    }

    pub(crate) fn push_de(&mut self, memory: &mut Memory)
        requires
            old(memory)@.wf(),
            old(memory)@.word_write_ok(old(self).pushed_sp(), old(self).pair16(1)),
        ensures
            pushes(*old(self), old(memory)@, old(self).pair16(1), final(memory)@),
            *final(self) == old(self).with_sp(old(self).pushed_sp()),
            final(memory)@.wf(),
    {
        let de = self.registers.get_de();
        self.push_nn(de, memory);
    }

    pub(crate) fn push_hl(&mut self, memory: &mut Memory)
        requires
            old(memory)@.wf(),
            old(memory)@.word_write_ok(old(self).pushed_sp(), old(self).pair16(2)),
        ensures
            pushes(*old(self), old(memory)@, old(self).pair16(2), final(memory)@),
            *final(self) == old(self).with_sp(old(self).pushed_sp()),
            final(memory)@.wf(),
    {
        let hl = self.registers.get_hl();
        self.push_nn(hl, memory);
    }

    pub(crate) fn push_af(&mut self, memory: &mut Memory)
        requires
            old(memory)@.wf(),
            old(memory)@.word_write_ok(old(self).pushed_sp(), old(self).registers.af()),
        ensures
            pushes(*old(self), old(memory)@, old(self).registers.af(), final(memory)@),
            *final(self) == old(self).with_sp(old(self).pushed_sp()),
            final(memory)@.wf(),
    {
        let af = self.registers.get_af();
        self.push_nn(af, memory);
    }

    pub(crate) fn add_a_n(&mut self, n: u8)
        ensures
            *final(self) == old(self).after_alu(0, n),
    {
        self.alu_n(0, n);
    }

    pub(crate) fn rst_0(&mut self, memory: &mut Memory)
        requires
            old(memory)@.wf(),
            old(memory)@.word_write_ok(old(self).pushed_sp(), old(self).registers.pc),
        ensures
            pushes(*old(self), old(memory)@, old(self).registers.pc, final(memory)@),
            *final(self) == old(self).with_sp(old(self).pushed_sp()).with_pc(0x0),
            final(memory)@.wf(),
    {
        self.rst_n(0x0, memory);
    }

    pub(crate) fn adc_a_n(&mut self, n: u8)
        ensures
            *final(self) == old(self).after_alu(1, n),
    {
        self.alu_n(1, n);
    }

    pub(crate) fn rst_8(&mut self, memory: &mut Memory)
        requires
            old(memory)@.wf(),
            old(memory)@.word_write_ok(old(self).pushed_sp(), old(self).registers.pc),
        ensures
            pushes(*old(self), old(memory)@, old(self).registers.pc, final(memory)@),
            *final(self) == old(self).with_sp(old(self).pushed_sp()).with_pc(0x8),
            final(memory)@.wf(),
    {
        self.rst_n(0x8, memory);
    }

    pub(crate) fn sub_a_n(&mut self, n: u8)
        ensures
            *final(self) == old(self).after_alu(2, n),
    {
        self.alu_n(2, n);
    }

    pub(crate) fn rst_10(&mut self, memory: &mut Memory)
        requires
            old(memory)@.wf(),
            old(memory)@.word_write_ok(old(self).pushed_sp(), old(self).registers.pc),
        ensures
            pushes(*old(self), old(memory)@, old(self).registers.pc, final(memory)@),
            *final(self) == old(self).with_sp(old(self).pushed_sp()).with_pc(0x10),
            final(memory)@.wf(),
    {
        self.rst_n(0x10, memory);
    }

    pub(crate) fn sbc_a_n(&mut self, n: u8)
        ensures
            *final(self) == old(self).after_alu(3, n),
    {
        self.alu_n(3, n);
    }

    pub(crate) fn rst_18(&mut self, memory: &mut Memory)
        requires
            old(memory)@.wf(),
            old(memory)@.word_write_ok(old(self).pushed_sp(), old(self).registers.pc),
        ensures
            pushes(*old(self), old(memory)@, old(self).registers.pc, final(memory)@),
            *final(self) == old(self).with_sp(old(self).pushed_sp()).with_pc(0x18),
            final(memory)@.wf(),
    {
        self.rst_n(0x18, memory);
    }

    pub(crate) fn and_n(&mut self, n: u8)
        ensures
            *final(self) == old(self).after_alu(4, n),
    {
        self.alu_n(4, n);
    }

    pub(crate) fn rst_20(&mut self, memory: &mut Memory)
        requires
            old(memory)@.wf(),
            old(memory)@.word_write_ok(old(self).pushed_sp(), old(self).registers.pc),
        ensures
            pushes(*old(self), old(memory)@, old(self).registers.pc, final(memory)@),
            *final(self) == old(self).with_sp(old(self).pushed_sp()).with_pc(0x20),
            final(memory)@.wf(),
    {
        self.rst_n(0x20, memory);
    }

    pub(crate) fn xor_n(&mut self, n: u8)
        ensures
            *final(self) == old(self).after_alu(5, n),
    {
        self.alu_n(5, n);
    }

    pub(crate) fn rst_28(&mut self, memory: &mut Memory)
        requires
            old(memory)@.wf(),
            old(memory)@.word_write_ok(old(self).pushed_sp(), old(self).registers.pc),
        ensures
            pushes(*old(self), old(memory)@, old(self).registers.pc, final(memory)@),
            *final(self) == old(self).with_sp(old(self).pushed_sp()).with_pc(0x28),
            final(memory)@.wf(),
    {
        self.rst_n(0x28, memory);
    }

    pub(crate) fn or_n(&mut self, n: u8)
        ensures
            *final(self) == old(self).after_alu(6, n),
    {
        self.alu_n(6, n);
    }

    pub(crate) fn rst_30(&mut self, memory: &mut Memory)
        requires
            old(memory)@.wf(),
            old(memory)@.word_write_ok(old(self).pushed_sp(), old(self).registers.pc),
        ensures
            pushes(*old(self), old(memory)@, old(self).registers.pc, final(memory)@),
            *final(self) == old(self).with_sp(old(self).pushed_sp()).with_pc(0x30),
            final(memory)@.wf(),
    {
        self.rst_n(0x30, memory);
    }

    pub(crate) fn cp_n(&mut self, n: u8)
        ensures
            *final(self) == old(self).after_alu(7, n),
    {
        self.alu_n(7, n);
    }

    pub(crate) fn rst_38(&mut self, memory: &mut Memory)
        requires
            old(memory)@.wf(),
            old(memory)@.word_write_ok(old(self).pushed_sp(), old(self).registers.pc),
        ensures
            pushes(*old(self), old(memory)@, old(self).registers.pc, final(memory)@),
            *final(self) == old(self).with_sp(old(self).pushed_sp()).with_pc(0x38),
            final(memory)@.wf(),
    {
        self.rst_n(0x38, memory);
    }

    pub(crate) fn ret_i(&mut self, memory: &Memory)
        requires
            memory@.wf(),
            can_pop(*old(self)),
        ensures
            *final(self) == old(self).after_reti(memory@),
    {
        self.registers.pc = self.pop(memory);
        self.pending_disable_interrupts = -1;
        self.pending_enable_interrupts = -1;
        self.interrupt_enabled = true;
        self.instruction_cycle = 16;
    }

    pub(crate) fn ldh_n_a(&mut self, n: u8, memory: &mut Memory)
        requires
            old(memory)@.wf(),
            old(memory)@.write_ok((0xFF00 + n) as u16, old(self).registers.a),
        ensures
            stores(old(memory)@, final(memory)@, (0xFF00 + n) as u16, old(self).registers.a, *old(self), *final(self)),
            final(memory)@.wf(),
    {
        memory.write_byte(0xFF00 + n as u16, self.registers.a);
    }

    pub(crate) fn ldh_a_c(&mut self, memory: &mut Memory)
        requires
            old(memory)@.wf(),
            old(memory)@.write_ok((0xFF00 + old(self).registers.c) as u16, old(self).registers.a),
        ensures
            stores(old(memory)@, final(memory)@, (0xFF00 + old(self).registers.c) as u16, old(self).registers.a, *old(self), *final(self)),
            final(memory)@.wf(),
    {
        memory.write_byte(0xFF00 + self.registers.c as u16, self.registers.a);
    }

    pub(crate) fn ldh_a_n(&mut self, n: u8, memory: &Memory)
        requires
            memory@.wf(),
            readable((0xFF00 + n) as u16),
        ensures
            *final(self) == old(self).with_reg8(7, memory@.read((0xFF00 + n) as u16)),
    {
        self.registers.a = memory.read_byte(0xFF00 + n as u16);
    }

    pub(crate) fn ldh_c_a(&mut self, memory: &mut Memory)
        requires
            old(memory)@.wf(),
            readable((0xFF00 + old(self).registers.c) as u16),
        ensures
            *final(self) == old(self).with_reg8(7, old(memory)@.read((0xFF00 + old(self).registers.c) as u16)),
            final(memory)@ == old(memory)@,
            final(memory)@.wf(),
    {
        self.registers.a = memory.read_byte(0xFF00 + self.registers.c as u16);
    }

    pub(crate) fn ld_nn_a(&mut self, nn: u16, memory: &mut Memory)
        requires
            old(memory)@.wf(),
            old(memory)@.write_ok(nn, old(self).registers.a),
        ensures
            stores(old(memory)@, final(memory)@, nn, old(self).registers.a, *old(self), *final(self)),
            final(memory)@.wf(),
    {
        memory.write_byte(nn, self.registers.a);
    }

    pub(crate) fn ld_a_nn(&mut self, nn: u16, memory: &Memory)
        requires
            memory@.wf(),
            readable(nn),
        ensures
            *final(self) == old(self).with_reg8(7, memory@.read(nn)),
    {
        self.registers.a = memory.read_byte(nn);
    }

    pub(crate) fn add_sp_s(&mut self, n: u8)
        ensures
            *final(self) == old(self).after_add_sp(n),
    {
        self.registers.sp = self.add_sp(n);
    }

    pub(crate) fn ld_hl_sp_e(&mut self, n: u8)
        ensures
            *final(self) == old(self).after_ld_hl_sp(n),
    {
        let hl = self.add_sp(n);
        self.registers.set_hl(hl);
    }

    pub(crate) fn jp_hl(&mut self)
        ensures
            *final(self) == old(self).with_pc(old(self).hl()),
    {
        let hl = self.registers.get_hl();
        self.registers.pc = hl;
    }

    pub(crate) fn ld_sp_hl(&mut self)
        ensures
            *final(self) == old(self).with_sp(old(self).hl()),
    {
        self.registers.sp = self.registers.get_hl();
    }

    /// Opcodes 0xC0..=0xFF.
    #[verifier::rlimit(100)]
    #[verifier::spinoff_prover]
    pub(crate) fn execute_high(&mut self, opcode: u8, memory: &mut Memory)
        requires
            old(memory)@.wf(),
            0xC0 <= opcode <= 0xFF,
            can_execute(*old(self), old(memory)@, opcode),
        ensures
            executes(*old(self), old(memory)@, opcode, *final(self), final(memory)@),
            final(memory)@.wf(),
    {
        proof {
            reveal(executes);
            reveal(can_execute);
        }
        match opcode {
            0xC0 => self.ret_nz(memory),
            0xC1 => self.pop_bc(memory),
            0xC2 => {
                let nn = self.get_nn(memory);
                self.jp_nz_nn(nn);
            },
            0xC3 => {
                let nn = self.get_nn(memory);
                self.jp_nn(nn);
            },
            0xC4 => {
                let nn = self.get_nn(memory);
                self.call_nz_nn(memory, nn);
            },
            0xC5 => self.push_bc(memory),
            0xC6 => {
                let n = self.get_n(memory);
                self.add_a_n(n);
            },
            0xC7 => self.rst_0(memory),
            0xC8 => self.ret_z(memory),
            0xC9 => self.ret(memory),
            0xCA => {
                let nn = self.get_nn(memory);
                self.jp_z_nn(nn);
            },
            0xCB => {
                let n = self.get_n(memory);
                self.ext_ops(n, memory);
            },
            0xCC => {
                let nn = self.get_nn(memory);
                self.call_z_nn(nn, memory);
            },
            0xCD => {
                let nn = self.get_nn(memory);
                self.call_nn(nn, memory);
            },
            0xCE => {
                let n = self.get_n(memory);
                self.adc_a_n(n);
            },
            0xCF => self.rst_8(memory),
            0xD0 => self.ret_nc(memory),
            0xD1 => self.pop_de(memory),
            0xD2 => {
                let nn = self.get_nn(memory);
                self.jp_nc_nn(nn);
            },
            0xD3 => self.undefined(opcode),
            0xD4 => {
                let nn = self.get_nn(memory);
                self.call_nc_nn(nn, memory);
            },
            0xD5 => self.push_de(memory),
            0xD6 => {
                let n = self.get_n(memory);
                self.sub_a_n(n);
            },
            0xD7 => self.rst_10(memory),
            0xD8 => self.ret_c(memory),
            0xD9 => self.ret_i(memory),
            0xDA => {
                let nn = self.get_nn(memory);
                self.jp_c_nn(nn);
            },
            0xDB => self.undefined(opcode),
            0xDC => {
                let nn = self.get_nn(memory);
                self.call_c_nn(nn, memory);
            },
            0xDD => self.undefined(opcode),
            0xDE => {
                let n = self.get_n(memory);
                self.sbc_a_n(n);
            },
            0xDF => self.rst_18(memory),
            0xE0 => {
                let n = self.get_n(memory);
                self.ldh_n_a(n, memory);
            },
            0xE1 => self.pop_hl(memory),
            0xE2 => self.ldh_a_c(memory),
            0xE3 => self.undefined(opcode),
            0xE4 => self.undefined(opcode),
            0xE5 => self.push_hl(memory),
            0xE6 => {
                let n = self.get_n(memory);
                self.and_n(n);
            },
            0xE7 => self.rst_20(memory),
            0xE8 => {
                let n = self.get_n(memory);
                self.add_sp_s(n);
            },
            0xE9 => self.jp_hl(),
            0xEA => {
                let nn = self.get_nn(memory);
                self.ld_nn_a(nn, memory);
            },
            0xEB => self.undefined(opcode),
            0xEC => self.undefined(opcode),
            0xED => self.undefined(opcode),
            0xEE => {
                let n = self.get_n(memory);
                self.xor_n(n);
            },
            0xEF => self.rst_28(memory),
            0xF0 => {
                let n = self.get_n(memory);
                self.ldh_a_n(n, memory);
            },
            0xF1 => self.pop_af(memory),
            0xF2 => self.ldh_c_a(memory),
            0xF3 => self.di(),
            0xF4 => self.undefined(opcode),
            0xF5 => self.push_af(memory),
            0xF6 => {
                let n = self.get_n(memory);
                self.or_n(n);
            },
            0xF7 => self.rst_30(memory),
            0xF8 => {
                let n = self.get_n(memory);
                self.ld_hl_sp_e(n);
            },
            0xF9 => self.ld_sp_hl(),
            0xFA => {
                let nn = self.get_nn(memory);
                self.ld_a_nn(nn, memory);
            },
            0xFB => self.ei(),
            0xFC => self.undefined(opcode),
            0xFD => self.undefined(opcode),
            0xFE => {
                let n = self.get_n(memory);
                self.cp_n(n);
            },
            _ => self.rst_38(memory),
        }
    }
}

} // verus!
