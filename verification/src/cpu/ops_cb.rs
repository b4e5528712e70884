use vstd::prelude::*;
use crate::bit_utils::{with_bit_spec, without_bit_spec};
use crate::cpu::Cpu;
use crate::cpu::alu::{wrap8, wrap16, inc_flags, dec_flags, bit_flags};
use crate::cpu::flag::flag_of;
use crate::cpu::registers::{Registers, high_byte, low_byte};
use crate::cpu::semantics::{stores, pushes, can_pop, can_execute, can_execute_cb, executes, executes_cb};
use crate::mmu::memory::{Memory, readable, writes_word};

verus! {

impl Cpu {
    pub(crate) fn rlc_b(&mut self)
        ensures
            *final(self) == old(self).after_shift(0, 0),
    {
        self.registers.b = self.shift_n(0, self.registers.b);
    }

    pub(crate) fn rlc_c(&mut self)
        ensures
            *final(self) == old(self).after_shift(0, 1),
    {
        self.registers.c = self.shift_n(0, self.registers.c);
    }

    pub(crate) fn rlc_d(&mut self)
        ensures
            *final(self) == old(self).after_shift(0, 2),
    {
        self.registers.d = self.shift_n(0, self.registers.d);
    }

    pub(crate) fn rlc_e(&mut self)
        ensures
            *final(self) == old(self).after_shift(0, 3),
    {
        self.registers.e = self.shift_n(0, self.registers.e);
    }

    pub(crate) fn rlc_h(&mut self)
        ensures
            *final(self) == old(self).after_shift(0, 4),
    {
        self.registers.h = self.shift_n(0, self.registers.h);
    }

    pub(crate) fn rlc_l(&mut self)
        ensures
            *final(self) == old(self).after_shift(0, 5),
    {
        self.registers.l = self.shift_n(0, self.registers.l);
    }

    pub(crate) fn rlc_hl(&mut self, memory: &mut Memory)
        requires
            old(memory)@.wf(),
            can_execute_cb(*old(self), old(memory)@, 0x06),
        ensures
            executes_cb(*old(self), old(memory)@, 0x06, *final(self), final(memory)@),
            final(memory)@.wf(),
    {
        let n = memory.read_byte(self.registers.get_hl());
        let r = self.shift_n(0, n);
        memory.write_byte(self.registers.get_hl(), r);
    }

    pub(crate) fn rlc_a_cb(&mut self)
        ensures
            *final(self) == old(self).after_shift(0, 7),
    {
        self.registers.a = self.shift_n(0, self.registers.a);
    }

    pub(crate) fn rrc_b(&mut self)
        ensures
            *final(self) == old(self).after_shift(1, 0),
    {
        self.registers.b = self.shift_n(1, self.registers.b);
    }

    pub(crate) fn rrc_c(&mut self)
        ensures
            *final(self) == old(self).after_shift(1, 1),
    {
        self.registers.c = self.shift_n(1, self.registers.c);
    }

    pub(crate) fn rrc_d(&mut self)
        ensures
            *final(self) == old(self).after_shift(1, 2),
    {
        self.registers.d = self.shift_n(1, self.registers.d);
    }

    pub(crate) fn rrc_e(&mut self)
        ensures
            *final(self) == old(self).after_shift(1, 3),
    {
        self.registers.e = self.shift_n(1, self.registers.e);
    }

    pub(crate) fn rrc_h(&mut self)
        ensures
            *final(self) == old(self).after_shift(1, 4),
    {
        self.registers.h = self.shift_n(1, self.registers.h);
    }

    pub(crate) fn rrc_l(&mut self)
        ensures
            *final(self) == old(self).after_shift(1, 5),
    {
        self.registers.l = self.shift_n(1, self.registers.l);
    }

    pub(crate) fn rrc_hl(&mut self, memory: &mut Memory)
        requires
            old(memory)@.wf(),
            can_execute_cb(*old(self), old(memory)@, 0x0E),
        ensures
            executes_cb(*old(self), old(memory)@, 0x0E, *final(self), final(memory)@),
            final(memory)@.wf(),
    {
        let n = memory.read_byte(self.registers.get_hl());
        let r = self.shift_n(1, n);
        memory.write_byte(self.registers.get_hl(), r);
    }

    pub(crate) fn rrc_a_cb(&mut self)
        ensures
            *final(self) == old(self).after_shift(1, 7),
    {
        self.registers.a = self.shift_n(1, self.registers.a);
    }

    pub(crate) fn rl_b(&mut self)
        ensures
            *final(self) == old(self).after_shift(2, 0),
    {
        self.registers.b = self.shift_n(2, self.registers.b);
    }

    pub(crate) fn rl_c(&mut self)
        ensures
            *final(self) == old(self).after_shift(2, 1),
    {
        self.registers.c = self.shift_n(2, self.registers.c);
    }

    pub(crate) fn rl_d(&mut self)
        ensures
            *final(self) == old(self).after_shift(2, 2),
    {
        self.registers.d = self.shift_n(2, self.registers.d);
    }

    pub(crate) fn rl_e(&mut self)
        ensures
            *final(self) == old(self).after_shift(2, 3),
    {
        self.registers.e = self.shift_n(2, self.registers.e);
    }

    pub(crate) fn rl_h(&mut self)
        ensures
            *final(self) == old(self).after_shift(2, 4),
    {
        self.registers.h = self.shift_n(2, self.registers.h);
    }

    pub(crate) fn rl_l(&mut self)
        ensures
            *final(self) == old(self).after_shift(2, 5),
    {
        self.registers.l = self.shift_n(2, self.registers.l);
    }

    pub(crate) fn rl_hl(&mut self, memory: &mut Memory)
        requires
            old(memory)@.wf(),
            can_execute_cb(*old(self), old(memory)@, 0x16),
        ensures
            executes_cb(*old(self), old(memory)@, 0x16, *final(self), final(memory)@),
            final(memory)@.wf(),
    {
        let n = memory.read_byte(self.registers.get_hl());
        let r = self.shift_n(2, n);
        memory.write_byte(self.registers.get_hl(), r);
    }

    pub(crate) fn rl_a_cb(&mut self)
        ensures
            *final(self) == old(self).after_shift(2, 7),
    {
        self.registers.a = self.shift_n(2, self.registers.a);
    }

    pub(crate) fn rr_b(&mut self)
        ensures
            *final(self) == old(self).after_shift(3, 0),
    {
        self.registers.b = self.shift_n(3, self.registers.b);
    }

    pub(crate) fn rr_c(&mut self)
        ensures
            *final(self) == old(self).after_shift(3, 1),
    {
        self.registers.c = self.shift_n(3, self.registers.c);
    }

    pub(crate) fn rr_d(&mut self)
        ensures
            *final(self) == old(self).after_shift(3, 2),
    {
        self.registers.d = self.shift_n(3, self.registers.d);
    }

    pub(crate) fn rr_e(&mut self)
        ensures
            *final(self) == old(self).after_shift(3, 3),
    {
        self.registers.e = self.shift_n(3, self.registers.e);
    }

    pub(crate) fn rr_h(&mut self)
        ensures
            *final(self) == old(self).after_shift(3, 4),
    {
        self.registers.h = self.shift_n(3, self.registers.h);
    }

    pub(crate) fn rr_l(&mut self)
        ensures
            *final(self) == old(self).after_shift(3, 5),
    {
        self.registers.l = self.shift_n(3, self.registers.l);
    }

    pub(crate) fn rr_hl(&mut self, memory: &mut Memory)
        requires
            old(memory)@.wf(),
            can_execute_cb(*old(self), old(memory)@, 0x1E),
        ensures
            executes_cb(*old(self), old(memory)@, 0x1E, *final(self), final(memory)@),
            final(memory)@.wf(),
    {
        let n = memory.read_byte(self.registers.get_hl());
        let r = self.shift_n(3, n);
        memory.write_byte(self.registers.get_hl(), r);
    }

    pub(crate) fn rr_a_cb(&mut self)
        ensures
            *final(self) == old(self).after_shift(3, 7),
    {
        self.registers.a = self.shift_n(3, self.registers.a);
    }

    pub(crate) fn sla_b(&mut self)
        ensures
            *final(self) == old(self).after_shift(4, 0),
    {
        self.registers.b = self.shift_n(4, self.registers.b);
    }

    pub(crate) fn sla_c(&mut self)
        ensures
            *final(self) == old(self).after_shift(4, 1),
    {
        self.registers.c = self.shift_n(4, self.registers.c);
    }

    pub(crate) fn sla_d(&mut self)
        ensures
            *final(self) == old(self).after_shift(4, 2),
    {
        self.registers.d = self.shift_n(4, self.registers.d);
    }

    pub(crate) fn sla_e(&mut self)
        ensures
            *final(self) == old(self).after_shift(4, 3),
    {
        self.registers.e = self.shift_n(4, self.registers.e);
    }

    pub(crate) fn sla_h(&mut self)
        ensures
            *final(self) == old(self).after_shift(4, 4),
    {
        self.registers.h = self.shift_n(4, self.registers.h);
    }

    pub(crate) fn sla_l(&mut self)
        ensures
            *final(self) == old(self).after_shift(4, 5),
    {
        self.registers.l = self.shift_n(4, self.registers.l);
    }

    pub(crate) fn sla_hl(&mut self, memory: &mut Memory)
        requires
            old(memory)@.wf(),
            can_execute_cb(*old(self), old(memory)@, 0x26),
        ensures
            executes_cb(*old(self), old(memory)@, 0x26, *final(self), final(memory)@),
            final(memory)@.wf(),
    {
        let n = memory.read_byte(self.registers.get_hl());
        let r = self.shift_n(4, n);
        memory.write_byte(self.registers.get_hl(), r);
    }

    pub(crate) fn sla_a(&mut self)
        ensures
            *final(self) == old(self).after_shift(4, 7),
    {
        self.registers.a = self.shift_n(4, self.registers.a);
    }

    pub(crate) fn sra_b(&mut self)
        ensures
            *final(self) == old(self).after_shift(5, 0),
    {
        self.registers.b = self.shift_n(5, self.registers.b);
    }

    pub(crate) fn sra_c(&mut self)
        ensures
            *final(self) == old(self).after_shift(5, 1),
    {
        self.registers.c = self.shift_n(5, self.registers.c);
    }

    pub(crate) fn sra_d(&mut self)
        ensures
            *final(self) == old(self).after_shift(5, 2),
    {
        self.registers.d = self.shift_n(5, self.registers.d);
    }

    pub(crate) fn sra_e(&mut self)
        ensures
            *final(self) == old(self).after_shift(5, 3),
    {
        self.registers.e = self.shift_n(5, self.registers.e);
    }

    pub(crate) fn sra_h(&mut self)
        ensures
            *final(self) == old(self).after_shift(5, 4),
    {
        self.registers.h = self.shift_n(5, self.registers.h);
    }

    pub(crate) fn sra_l(&mut self)
        ensures
            *final(self) == old(self).after_shift(5, 5),
    {
        self.registers.l = self.shift_n(5, self.registers.l);
    }

    pub(crate) fn sra_hl(&mut self, memory: &mut Memory)
        requires
            old(memory)@.wf(),
            can_execute_cb(*old(self), old(memory)@, 0x2E),
        ensures
            executes_cb(*old(self), old(memory)@, 0x2E, *final(self), final(memory)@),
            final(memory)@.wf(),
    {
        let n = memory.read_byte(self.registers.get_hl());
        let r = self.shift_n(5, n);
        memory.write_byte(self.registers.get_hl(), r);
    }

    pub(crate) fn sra_a(&mut self)
        ensures
            *final(self) == old(self).after_shift(5, 7),
    {
        self.registers.a = self.shift_n(5, self.registers.a);
    }

    pub(crate) fn swap_b(&mut self)
        ensures
            *final(self) == old(self).after_shift(6, 0),
    {
        self.registers.b = self.shift_n(6, self.registers.b);
    }

    pub(crate) fn swap_c(&mut self)
        ensures
            *final(self) == old(self).after_shift(6, 1),
    {
        self.registers.c = self.shift_n(6, self.registers.c);
    }

    pub(crate) fn swap_d(&mut self)
        ensures
            *final(self) == old(self).after_shift(6, 2),
    {
        self.registers.d = self.shift_n(6, self.registers.d);
    }

    pub(crate) fn swap_e(&mut self)
        ensures
            *final(self) == old(self).after_shift(6, 3),
    {
        self.registers.e = self.shift_n(6, self.registers.e);
    }

    pub(crate) fn swap_h(&mut self)
        ensures
            *final(self) == old(self).after_shift(6, 4),
    {
        self.registers.h = self.shift_n(6, self.registers.h);
    }

    pub(crate) fn swap_l(&mut self)
        ensures
            *final(self) == old(self).after_shift(6, 5),
    {
        self.registers.l = self.shift_n(6, self.registers.l);
    }

    pub(crate) fn swap_hl(&mut self, memory: &mut Memory)
        requires
            old(memory)@.wf(),
            can_execute_cb(*old(self), old(memory)@, 0x36),
        ensures
            executes_cb(*old(self), old(memory)@, 0x36, *final(self), final(memory)@),
            final(memory)@.wf(),
    {
        let n = memory.read_byte(self.registers.get_hl());
        let r = self.shift_n(6, n);
        memory.write_byte(self.registers.get_hl(), r);
    }

    pub(crate) fn swap_a(&mut self)
        ensures
            *final(self) == old(self).after_shift(6, 7),
    {
        self.registers.a = self.shift_n(6, self.registers.a);
    }

    pub(crate) fn srl_b(&mut self)
        ensures
            *final(self) == old(self).after_shift(7, 0),
    {
        self.registers.b = self.shift_n(7, self.registers.b);
    }

    pub(crate) fn srl_c(&mut self)
        ensures
            *final(self) == old(self).after_shift(7, 1),
    {
        self.registers.c = self.shift_n(7, self.registers.c);
    }

    pub(crate) fn srl_d(&mut self)
        ensures
            *final(self) == old(self).after_shift(7, 2),
    {
        self.registers.d = self.shift_n(7, self.registers.d);
    }

    pub(crate) fn srl_e(&mut self)
        ensures
            *final(self) == old(self).after_shift(7, 3),
    {
        self.registers.e = self.shift_n(7, self.registers.e);
    }

    pub(crate) fn srl_h(&mut self)
        ensures
            *final(self) == old(self).after_shift(7, 4),
    {
        self.registers.h = self.shift_n(7, self.registers.h);
    }

    pub(crate) fn srl_l(&mut self)
        ensures
            *final(self) == old(self).after_shift(7, 5),
    {
        self.registers.l = self.shift_n(7, self.registers.l);
    }

    pub(crate) fn srl_hl(&mut self, memory: &mut Memory)
        requires
            old(memory)@.wf(),
            can_execute_cb(*old(self), old(memory)@, 0x3E),
        ensures
            executes_cb(*old(self), old(memory)@, 0x3E, *final(self), final(memory)@),
            final(memory)@.wf(),
    {
        let n = memory.read_byte(self.registers.get_hl());
        let r = self.shift_n(7, n);
        memory.write_byte(self.registers.get_hl(), r);
    }

    pub(crate) fn srl_a(&mut self)
        ensures
            *final(self) == old(self).after_shift(7, 7),
    {
        self.registers.a = self.shift_n(7, self.registers.a);
    }

    pub(crate) fn bit_0_b(&mut self)
        ensures
            *final(self) == old(self).with_flags(bit_flags(old(self).reg8(0), 0, old(self).registers.f)),
    {
        self.bit_i(0, self.registers.b);
    }

    pub(crate) fn bit_0_c(&mut self)
        ensures
            *final(self) == old(self).with_flags(bit_flags(old(self).reg8(1), 0, old(self).registers.f)),
    {
        self.bit_i(0, self.registers.c);
    }

    pub(crate) fn bit_0_d(&mut self)
        ensures
            *final(self) == old(self).with_flags(bit_flags(old(self).reg8(2), 0, old(self).registers.f)),
    {
        self.bit_i(0, self.registers.d);
    }

    pub(crate) fn bit_0_e(&mut self)
        ensures
            *final(self) == old(self).with_flags(bit_flags(old(self).reg8(3), 0, old(self).registers.f)),
    {
        self.bit_i(0, self.registers.e);
    }

    pub(crate) fn bit_0_h(&mut self)
        ensures
            *final(self) == old(self).with_flags(bit_flags(old(self).reg8(4), 0, old(self).registers.f)),
    {
        self.bit_i(0, self.registers.h);
    }

    pub(crate) fn bit_0_l(&mut self)
        ensures
            *final(self) == old(self).with_flags(bit_flags(old(self).reg8(5), 0, old(self).registers.f)),
    {
        self.bit_i(0, self.registers.l);
    }

    pub(crate) fn bit_0_hl(&mut self, memory: &Memory)
        requires
            memory@.wf(),
            readable(old(self).hl()),
        ensures
            *final(self) == old(self).with_flags(bit_flags(memory@.read(old(self).hl()), 0, old(self).registers.f)),
    {
        let n = memory.read_byte(self.registers.get_hl());
        self.bit_i(0, n);
    }

    pub(crate) fn bit_0_a(&mut self)
        ensures
            *final(self) == old(self).with_flags(bit_flags(old(self).reg8(7), 0, old(self).registers.f)),
    {
        self.bit_i(0, self.registers.a);
    }

    pub(crate) fn bit_1_b(&mut self)
        ensures
            *final(self) == old(self).with_flags(bit_flags(old(self).reg8(0), 1, old(self).registers.f)),
    {
        self.bit_i(1, self.registers.b);
    }

    pub(crate) fn bit_1_c(&mut self)
        ensures
            *final(self) == old(self).with_flags(bit_flags(old(self).reg8(1), 1, old(self).registers.f)),
    {
        self.bit_i(1, self.registers.c);
    }

    pub(crate) fn bit_1_d(&mut self)
        ensures
            *final(self) == old(self).with_flags(bit_flags(old(self).reg8(2), 1, old(self).registers.f)),
    {
        self.bit_i(1, self.registers.d);
    }

    pub(crate) fn bit_1_e(&mut self)
        ensures
            *final(self) == old(self).with_flags(bit_flags(old(self).reg8(3), 1, old(self).registers.f)),
    {
        self.bit_i(1, self.registers.e);
    }

    pub(crate) fn bit_1_h(&mut self)
        ensures
            *final(self) == old(self).with_flags(bit_flags(old(self).reg8(4), 1, old(self).registers.f)),
    {
        self.bit_i(1, self.registers.h);
    }

    pub(crate) fn bit_1_l(&mut self)
        ensures
            *final(self) == old(self).with_flags(bit_flags(old(self).reg8(5), 1, old(self).registers.f)),
    {
        self.bit_i(1, self.registers.l);
    }

    pub(crate) fn bit_1_hl(&mut self, memory: &Memory)
        requires
            memory@.wf(),
            readable(old(self).hl()),
        ensures
            *final(self) == old(self).with_flags(bit_flags(memory@.read(old(self).hl()), 1, old(self).registers.f)),
    {
        let n = memory.read_byte(self.registers.get_hl());
        self.bit_i(1, n);
    }

    pub(crate) fn bit_1_a(&mut self)
        ensures
            *final(self) == old(self).with_flags(bit_flags(old(self).reg8(7), 1, old(self).registers.f)),
    {
        self.bit_i(1, self.registers.a);
    }

    pub(crate) fn bit_2_b(&mut self)
        ensures
            *final(self) == old(self).with_flags(bit_flags(old(self).reg8(0), 2, old(self).registers.f)),
    {
        self.bit_i(2, self.registers.b);
    }

    pub(crate) fn bit_2_c(&mut self)
        ensures
            *final(self) == old(self).with_flags(bit_flags(old(self).reg8(1), 2, old(self).registers.f)),
    {
        self.bit_i(2, self.registers.c);
    }

    pub(crate) fn bit_2_d(&mut self)
        ensures
            *final(self) == old(self).with_flags(bit_flags(old(self).reg8(2), 2, old(self).registers.f)),
    {
        self.bit_i(2, self.registers.d);
    }

    pub(crate) fn bit_2_e(&mut self)
        ensures
            *final(self) == old(self).with_flags(bit_flags(old(self).reg8(3), 2, old(self).registers.f)),
    {
        self.bit_i(2, self.registers.e);
    }

    pub(crate) fn bit_2_h(&mut self)
        ensures
            *final(self) == old(self).with_flags(bit_flags(old(self).reg8(4), 2, old(self).registers.f)),
    {
        self.bit_i(2, self.registers.h);
    }

    pub(crate) fn bit_2_l(&mut self)
        ensures
            *final(self) == old(self).with_flags(bit_flags(old(self).reg8(5), 2, old(self).registers.f)),
    {
        self.bit_i(2, self.registers.l);
    }

    pub(crate) fn bit_2_hl(&mut self, memory: &Memory)
        requires
            memory@.wf(),
            readable(old(self).hl()),
        ensures
            *final(self) == old(self).with_flags(bit_flags(memory@.read(old(self).hl()), 2, old(self).registers.f)),
    {
        let n = memory.read_byte(self.registers.get_hl());
        self.bit_i(2, n);
    }

    pub(crate) fn bit_2_a(&mut self)
        ensures
            *final(self) == old(self).with_flags(bit_flags(old(self).reg8(7), 2, old(self).registers.f)),
    {
        self.bit_i(2, self.registers.a);
    }

    pub(crate) fn bit_3_b(&mut self)
        ensures
            *final(self) == old(self).with_flags(bit_flags(old(self).reg8(0), 3, old(self).registers.f)),
    {
        self.bit_i(3, self.registers.b);
    }

    pub(crate) fn bit_3_c(&mut self)
        ensures
            *final(self) == old(self).with_flags(bit_flags(old(self).reg8(1), 3, old(self).registers.f)),
    {
        self.bit_i(3, self.registers.c);
    }

    pub(crate) fn bit_3_d(&mut self)
        ensures
            *final(self) == old(self).with_flags(bit_flags(old(self).reg8(2), 3, old(self).registers.f)),
    {
        self.bit_i(3, self.registers.d);
    }

    pub(crate) fn bit_3_e(&mut self)
        ensures
            *final(self) == old(self).with_flags(bit_flags(old(self).reg8(3), 3, old(self).registers.f)),
    {
        self.bit_i(3, self.registers.e);
    }

    pub(crate) fn bit_3_h(&mut self)
        ensures
            *final(self) == old(self).with_flags(bit_flags(old(self).reg8(4), 3, old(self).registers.f)),
    {
        self.bit_i(3, self.registers.h);
    }

    pub(crate) fn bit_3_l(&mut self)
        ensures
            *final(self) == old(self).with_flags(bit_flags(old(self).reg8(5), 3, old(self).registers.f)),
    {
        self.bit_i(3, self.registers.l);
    }

    pub(crate) fn bit_3_hl(&mut self, memory: &Memory)
        requires
            memory@.wf(),
            readable(old(self).hl()),
        ensures
            *final(self) == old(self).with_flags(bit_flags(memory@.read(old(self).hl()), 3, old(self).registers.f)),
    {
        let n = memory.read_byte(self.registers.get_hl());
        self.bit_i(3, n);
    }

    pub(crate) fn bit_3_a(&mut self)
        ensures
            *final(self) == old(self).with_flags(bit_flags(old(self).reg8(7), 3, old(self).registers.f)),
    {
        self.bit_i(3, self.registers.a);
    }

    pub(crate) fn bit_4_b(&mut self)
        ensures
            *final(self) == old(self).with_flags(bit_flags(old(self).reg8(0), 4, old(self).registers.f)),
    {
        self.bit_i(4, self.registers.b);
    }

    pub(crate) fn bit_4_c(&mut self)
        ensures
            *final(self) == old(self).with_flags(bit_flags(old(self).reg8(1), 4, old(self).registers.f)),
    {
        self.bit_i(4, self.registers.c);
    }

    pub(crate) fn bit_4_d(&mut self)
        ensures
            *final(self) == old(self).with_flags(bit_flags(old(self).reg8(2), 4, old(self).registers.f)),
    {
        self.bit_i(4, self.registers.d);
    }

    pub(crate) fn bit_4_e(&mut self)
        ensures
            *final(self) == old(self).with_flags(bit_flags(old(self).reg8(3), 4, old(self).registers.f)),
    {
        self.bit_i(4, self.registers.e);
    }

    pub(crate) fn bit_4_h(&mut self)
        ensures
            *final(self) == old(self).with_flags(bit_flags(old(self).reg8(4), 4, old(self).registers.f)),
    {
        self.bit_i(4, self.registers.h);
    }

    pub(crate) fn bit_4_l(&mut self)
        ensures
            *final(self) == old(self).with_flags(bit_flags(old(self).reg8(5), 4, old(self).registers.f)),
    {
        self.bit_i(4, self.registers.l);
    }

    pub(crate) fn bit_4_hl(&mut self, memory: &Memory)
        requires
            memory@.wf(),
            readable(old(self).hl()),
        ensures
            *final(self) == old(self).with_flags(bit_flags(memory@.read(old(self).hl()), 4, old(self).registers.f)),
    {
        let n = memory.read_byte(self.registers.get_hl());
        self.bit_i(4, n);
    }

    pub(crate) fn bit_4_a(&mut self)
        ensures
            *final(self) == old(self).with_flags(bit_flags(old(self).reg8(7), 4, old(self).registers.f)),
    {
        self.bit_i(4, self.registers.a);
    }

    pub(crate) fn bit_5_b(&mut self)
        ensures
            *final(self) == old(self).with_flags(bit_flags(old(self).reg8(0), 5, old(self).registers.f)),
    {
        self.bit_i(5, self.registers.b);
    }

    pub(crate) fn bit_5_c(&mut self)
        ensures
            *final(self) == old(self).with_flags(bit_flags(old(self).reg8(1), 5, old(self).registers.f)),
    {
        self.bit_i(5, self.registers.c);
    }

    pub(crate) fn bit_5_d(&mut self)
        ensures
            *final(self) == old(self).with_flags(bit_flags(old(self).reg8(2), 5, old(self).registers.f)),
    {
        self.bit_i(5, self.registers.d);
    }

    pub(crate) fn bit_5_e(&mut self)
        ensures
            *final(self) == old(self).with_flags(bit_flags(old(self).reg8(3), 5, old(self).registers.f)),
    {
        self.bit_i(5, self.registers.e);
    }

    pub(crate) fn bit_5_h(&mut self)
        ensures
            *final(self) == old(self).with_flags(bit_flags(old(self).reg8(4), 5, old(self).registers.f)),
    {
        self.bit_i(5, self.registers.h);
    }

    pub(crate) fn bit_5_l(&mut self)
        ensures
            *final(self) == old(self).with_flags(bit_flags(old(self).reg8(5), 5, old(self).registers.f)),
    {
        self.bit_i(5, self.registers.l);
    }

    pub(crate) fn bit_5_hl(&mut self, memory: &Memory)
        requires
            memory@.wf(),
            readable(old(self).hl()),
        ensures
            *final(self) == old(self).with_flags(bit_flags(memory@.read(old(self).hl()), 5, old(self).registers.f)),
    {
        let n = memory.read_byte(self.registers.get_hl());
        self.bit_i(5, n);
    }

    pub(crate) fn bit_5_a(&mut self)
        ensures
            *final(self) == old(self).with_flags(bit_flags(old(self).reg8(7), 5, old(self).registers.f)),
    {
        self.bit_i(5, self.registers.a);
    }

    pub(crate) fn bit_6_b(&mut self)
        ensures
            *final(self) == old(self).with_flags(bit_flags(old(self).reg8(0), 6, old(self).registers.f)),
    {
        self.bit_i(6, self.registers.b);
    }

    pub(crate) fn bit_6_c(&mut self)
        ensures
            *final(self) == old(self).with_flags(bit_flags(old(self).reg8(1), 6, old(self).registers.f)),
    {
        self.bit_i(6, self.registers.c);
    }

    pub(crate) fn bit_6_d(&mut self)
        ensures
            *final(self) == old(self).with_flags(bit_flags(old(self).reg8(2), 6, old(self).registers.f)),
    {
        self.bit_i(6, self.registers.d);
    }

    pub(crate) fn bit_6_e(&mut self)
        ensures
            *final(self) == old(self).with_flags(bit_flags(old(self).reg8(3), 6, old(self).registers.f)),
    {
        self.bit_i(6, self.registers.e);
    }

    pub(crate) fn bit_6_h(&mut self)
        ensures
            *final(self) == old(self).with_flags(bit_flags(old(self).reg8(4), 6, old(self).registers.f)),
    {
        self.bit_i(6, self.registers.h);
    }

    pub(crate) fn bit_6_l(&mut self)
        ensures
            *final(self) == old(self).with_flags(bit_flags(old(self).reg8(5), 6, old(self).registers.f)),
    {
        self.bit_i(6, self.registers.l);
    }

    pub(crate) fn bit_6_hl(&mut self, memory: &Memory)
        requires
            memory@.wf(),
            readable(old(self).hl()),
        ensures
            *final(self) == old(self).with_flags(bit_flags(memory@.read(old(self).hl()), 6, old(self).registers.f)),
    {
        let n = memory.read_byte(self.registers.get_hl());
        self.bit_i(6, n);
    }

    pub(crate) fn bit_6_a(&mut self)
        ensures
            *final(self) == old(self).with_flags(bit_flags(old(self).reg8(7), 6, old(self).registers.f)),
    {
        self.bit_i(6, self.registers.a);
    }

    pub(crate) fn bit_7_b(&mut self)
        ensures
            *final(self) == old(self).with_flags(bit_flags(old(self).reg8(0), 7, old(self).registers.f)),
    {
        self.bit_i(7, self.registers.b);
    }

    pub(crate) fn bit_7_c(&mut self)
        ensures
            *final(self) == old(self).with_flags(bit_flags(old(self).reg8(1), 7, old(self).registers.f)),
    {
        self.bit_i(7, self.registers.c);
    }

    pub(crate) fn bit_7_d(&mut self)
        ensures
            *final(self) == old(self).with_flags(bit_flags(old(self).reg8(2), 7, old(self).registers.f)),
    {
        self.bit_i(7, self.registers.d);
    }

    pub(crate) fn bit_7_e(&mut self)
        ensures
            *final(self) == old(self).with_flags(bit_flags(old(self).reg8(3), 7, old(self).registers.f)),
    {
        self.bit_i(7, self.registers.e);
    }

    pub(crate) fn bit_7_h(&mut self)
        ensures
            *final(self) == old(self).with_flags(bit_flags(old(self).reg8(4), 7, old(self).registers.f)),
    {
        self.bit_i(7, self.registers.h);
    }

    pub(crate) fn bit_7_l(&mut self)
        ensures
            *final(self) == old(self).with_flags(bit_flags(old(self).reg8(5), 7, old(self).registers.f)),
    {
        self.bit_i(7, self.registers.l);
    }

    pub(crate) fn bit_7_hl(&mut self, memory: &Memory)
        requires
            memory@.wf(),
            readable(old(self).hl()),
        ensures
            *final(self) == old(self).with_flags(bit_flags(memory@.read(old(self).hl()), 7, old(self).registers.f)),
    {
        let n = memory.read_byte(self.registers.get_hl());
        self.bit_i(7, n);
    }

    pub(crate) fn bit_7_a(&mut self)
        ensures
            *final(self) == old(self).with_flags(bit_flags(old(self).reg8(7), 7, old(self).registers.f)),
    {
        self.bit_i(7, self.registers.a);
    }

    pub(crate) fn res_0_b(&mut self)
        ensures
            *final(self) == old(self).with_reg8(0, without_bit_spec(old(self).reg8(0), 0)),
    {
        self.registers.b = self.res_i(0, self.registers.b);
    }

    pub(crate) fn res_0_c(&mut self)
        ensures
            *final(self) == old(self).with_reg8(1, without_bit_spec(old(self).reg8(1), 0)),
    {
        self.registers.c = self.res_i(0, self.registers.c);
    }

    pub(crate) fn res_0_d(&mut self)
        ensures
            *final(self) == old(self).with_reg8(2, without_bit_spec(old(self).reg8(2), 0)),
    {
        self.registers.d = self.res_i(0, self.registers.d);
    }

    pub(crate) fn res_0_e(&mut self)
        ensures
            *final(self) == old(self).with_reg8(3, without_bit_spec(old(self).reg8(3), 0)),
    {
        self.registers.e = self.res_i(0, self.registers.e);
    }

    pub(crate) fn res_0_h(&mut self)
        ensures
            *final(self) == old(self).with_reg8(4, without_bit_spec(old(self).reg8(4), 0)),
    {
        self.registers.h = self.res_i(0, self.registers.h);
    }

    pub(crate) fn res_0_l(&mut self)
        ensures
            *final(self) == old(self).with_reg8(5, without_bit_spec(old(self).reg8(5), 0)),
    {
        self.registers.l = self.res_i(0, self.registers.l);
    }

    pub(crate) fn res_0_hl(&mut self, memory: &mut Memory)
        requires
            old(memory)@.wf(),
            can_execute_cb(*old(self), old(memory)@, 0x86),
        ensures
            executes_cb(*old(self), old(memory)@, 0x86, *final(self), final(memory)@),
            final(memory)@.wf(),
    {
        let n = memory.read_byte(self.registers.get_hl());
        let r = self.res_i(0, n);
        memory.write_byte(self.registers.get_hl(), r);
    }

    pub(crate) fn res_0_a(&mut self)
        ensures
            *final(self) == old(self).with_reg8(7, without_bit_spec(old(self).reg8(7), 0)),
    {
        self.registers.a = self.res_i(0, self.registers.a);
    }

    pub(crate) fn res_1_b(&mut self)
        ensures
            *final(self) == old(self).with_reg8(0, without_bit_spec(old(self).reg8(0), 1)),
    {
        self.registers.b = self.res_i(1, self.registers.b);
    }

    pub(crate) fn res_1_c(&mut self)
        ensures
            *final(self) == old(self).with_reg8(1, without_bit_spec(old(self).reg8(1), 1)),
    {
        self.registers.c = self.res_i(1, self.registers.c);
    }

    pub(crate) fn res_1_d(&mut self)
        ensures
            *final(self) == old(self).with_reg8(2, without_bit_spec(old(self).reg8(2), 1)),
    {
        self.registers.d = self.res_i(1, self.registers.d);
    }

    pub(crate) fn res_1_e(&mut self)
        ensures
            *final(self) == old(self).with_reg8(3, without_bit_spec(old(self).reg8(3), 1)),
    {
        self.registers.e = self.res_i(1, self.registers.e);
    }

    pub(crate) fn res_1_h(&mut self)
        ensures
            *final(self) == old(self).with_reg8(4, without_bit_spec(old(self).reg8(4), 1)),
    {
        self.registers.h = self.res_i(1, self.registers.h);
    }

    pub(crate) fn res_1_l(&mut self)
        ensures
            *final(self) == old(self).with_reg8(5, without_bit_spec(old(self).reg8(5), 1)),
    {
        self.registers.l = self.res_i(1, self.registers.l);
    }

    pub(crate) fn res_1_hl(&mut self, memory: &mut Memory)
        requires
            old(memory)@.wf(),
            can_execute_cb(*old(self), old(memory)@, 0x8E),
        ensures
            executes_cb(*old(self), old(memory)@, 0x8E, *final(self), final(memory)@),
            final(memory)@.wf(),
    {
        let n = memory.read_byte(self.registers.get_hl());
        let r = self.res_i(1, n);
        memory.write_byte(self.registers.get_hl(), r);
    }

    pub(crate) fn res_1_a(&mut self)
        ensures
            *final(self) == old(self).with_reg8(7, without_bit_spec(old(self).reg8(7), 1)),
    {
        self.registers.a = self.res_i(1, self.registers.a);
    }

    pub(crate) fn res_2_b(&mut self)
        ensures
            *final(self) == old(self).with_reg8(0, without_bit_spec(old(self).reg8(0), 2)),
    {
        self.registers.b = self.res_i(2, self.registers.b);
    }

    pub(crate) fn res_2_c(&mut self)
        ensures
            *final(self) == old(self).with_reg8(1, without_bit_spec(old(self).reg8(1), 2)),
    {
        self.registers.c = self.res_i(2, self.registers.c);
    }

    pub(crate) fn res_2_d(&mut self)
        ensures
            *final(self) == old(self).with_reg8(2, without_bit_spec(old(self).reg8(2), 2)),
    {
        self.registers.d = self.res_i(2, self.registers.d);
    }

    pub(crate) fn res_2_e(&mut self)
        ensures
            *final(self) == old(self).with_reg8(3, without_bit_spec(old(self).reg8(3), 2)),
    {
        self.registers.e = self.res_i(2, self.registers.e);
    }

    pub(crate) fn res_2_h(&mut self)
        ensures
            *final(self) == old(self).with_reg8(4, without_bit_spec(old(self).reg8(4), 2)),
    {
        self.registers.h = self.res_i(2, self.registers.h);
    }

    pub(crate) fn res_2_l(&mut self)
        ensures
            *final(self) == old(self).with_reg8(5, without_bit_spec(old(self).reg8(5), 2)),
    {
        self.registers.l = self.res_i(2, self.registers.l);
    }

    pub(crate) fn res_2_hl(&mut self, memory: &mut Memory)
        requires
            old(memory)@.wf(),
            can_execute_cb(*old(self), old(memory)@, 0x96),
        ensures
            executes_cb(*old(self), old(memory)@, 0x96, *final(self), final(memory)@),
            final(memory)@.wf(),
    {
        let n = memory.read_byte(self.registers.get_hl());
        let r = self.res_i(2, n);
        memory.write_byte(self.registers.get_hl(), r);
    }

    pub(crate) fn res_2_a(&mut self)
        ensures
            *final(self) == old(self).with_reg8(7, without_bit_spec(old(self).reg8(7), 2)),
    {
        self.registers.a = self.res_i(2, self.registers.a);
    }

    pub(crate) fn res_3_b(&mut self)
        ensures
            *final(self) == old(self).with_reg8(0, without_bit_spec(old(self).reg8(0), 3)),
    {
        self.registers.b = self.res_i(3, self.registers.b);
    }

    pub(crate) fn res_3_c(&mut self)
        ensures
            *final(self) == old(self).with_reg8(1, without_bit_spec(old(self).reg8(1), 3)),
    {
        self.registers.c = self.res_i(3, self.registers.c);
    }

    pub(crate) fn res_3_d(&mut self)
        ensures
            *final(self) == old(self).with_reg8(2, without_bit_spec(old(self).reg8(2), 3)),
    {
        self.registers.d = self.res_i(3, self.registers.d);
    }

    pub(crate) fn res_3_e(&mut self)
        ensures
            *final(self) == old(self).with_reg8(3, without_bit_spec(old(self).reg8(3), 3)),
    {
        self.registers.e = self.res_i(3, self.registers.e);
    }

    pub(crate) fn res_3_h(&mut self)
        ensures
            *final(self) == old(self).with_reg8(4, without_bit_spec(old(self).reg8(4), 3)),
    {
        self.registers.h = self.res_i(3, self.registers.h);
    }

    pub(crate) fn res_3_l(&mut self)
        ensures
            *final(self) == old(self).with_reg8(5, without_bit_spec(old(self).reg8(5), 3)),
    {
        self.registers.l = self.res_i(3, self.registers.l);
    }

    pub(crate) fn res_3_hl(&mut self, memory: &mut Memory)
        requires
            old(memory)@.wf(),
            can_execute_cb(*old(self), old(memory)@, 0x9E),
        ensures
            executes_cb(*old(self), old(memory)@, 0x9E, *final(self), final(memory)@),
            final(memory)@.wf(),
    {
        let n = memory.read_byte(self.registers.get_hl());
        let r = self.res_i(3, n);
        memory.write_byte(self.registers.get_hl(), r);
    }

    pub(crate) fn res_3_a(&mut self)
        ensures
            *final(self) == old(self).with_reg8(7, without_bit_spec(old(self).reg8(7), 3)),
    {
        self.registers.a = self.res_i(3, self.registers.a);
    }

    pub(crate) fn res_4_b(&mut self)
        ensures
            *final(self) == old(self).with_reg8(0, without_bit_spec(old(self).reg8(0), 4)),
    {
        self.registers.b = self.res_i(4, self.registers.b);
    }

    pub(crate) fn res_4_c(&mut self)
        ensures
            *final(self) == old(self).with_reg8(1, without_bit_spec(old(self).reg8(1), 4)),
    {
        self.registers.c = self.res_i(4, self.registers.c);
    }

    pub(crate) fn res_4_d(&mut self)
        ensures
            *final(self) == old(self).with_reg8(2, without_bit_spec(old(self).reg8(2), 4)),
    {
        self.registers.d = self.res_i(4, self.registers.d);
    }

    pub(crate) fn res_4_e(&mut self)
        ensures
            *final(self) == old(self).with_reg8(3, without_bit_spec(old(self).reg8(3), 4)),
    {
        self.registers.e = self.res_i(4, self.registers.e);
    }

    pub(crate) fn res_4_h(&mut self)
        ensures
            *final(self) == old(self).with_reg8(4, without_bit_spec(old(self).reg8(4), 4)),
    {
        self.registers.h = self.res_i(4, self.registers.h);
    }

    pub(crate) fn res_4_l(&mut self)
        ensures
            *final(self) == old(self).with_reg8(5, without_bit_spec(old(self).reg8(5), 4)),
    {
        self.registers.l = self.res_i(4, self.registers.l);
    }

    pub(crate) fn res_4_hl(&mut self, memory: &mut Memory)
        requires
            old(memory)@.wf(),
            can_execute_cb(*old(self), old(memory)@, 0xA6),
        ensures
            executes_cb(*old(self), old(memory)@, 0xA6, *final(self), final(memory)@),
            final(memory)@.wf(),
    {
        let n = memory.read_byte(self.registers.get_hl());
        let r = self.res_i(4, n);
        memory.write_byte(self.registers.get_hl(), r);
    }

    pub(crate) fn res_4_a(&mut self)
        ensures
            *final(self) == old(self).with_reg8(7, without_bit_spec(old(self).reg8(7), 4)),
    {
        self.registers.a = self.res_i(4, self.registers.a);
    }

    pub(crate) fn res_5_b(&mut self)
        ensures
            *final(self) == old(self).with_reg8(0, without_bit_spec(old(self).reg8(0), 5)),
    {
        self.registers.b = self.res_i(5, self.registers.b);
    }

    pub(crate) fn res_5_c(&mut self)
        ensures
            *final(self) == old(self).with_reg8(1, without_bit_spec(old(self).reg8(1), 5)),
    {
        self.registers.c = self.res_i(5, self.registers.c);
    }

    pub(crate) fn res_5_d(&mut self)
        ensures
            *final(self) == old(self).with_reg8(2, without_bit_spec(old(self).reg8(2), 5)),
    {
        self.registers.d = self.res_i(5, self.registers.d);
    }

    pub(crate) fn res_5_e(&mut self)
        ensures
            *final(self) == old(self).with_reg8(3, without_bit_spec(old(self).reg8(3), 5)),
    {
        self.registers.e = self.res_i(5, self.registers.e);
    }

    pub(crate) fn res_5_h(&mut self)
        ensures
            *final(self) == old(self).with_reg8(4, without_bit_spec(old(self).reg8(4), 5)),
    {
        self.registers.h = self.res_i(5, self.registers.h);
    }

    pub(crate) fn res_5_l(&mut self)
        ensures
            *final(self) == old(self).with_reg8(5, without_bit_spec(old(self).reg8(5), 5)),
    {
        self.registers.l = self.res_i(5, self.registers.l);
    }

    pub(crate) fn res_5_hl(&mut self, memory: &mut Memory)
        requires
            old(memory)@.wf(),
            can_execute_cb(*old(self), old(memory)@, 0xAE),
        ensures
            executes_cb(*old(self), old(memory)@, 0xAE, *final(self), final(memory)@),
            final(memory)@.wf(),
    {
        let n = memory.read_byte(self.registers.get_hl());
        let r = self.res_i(5, n);
        memory.write_byte(self.registers.get_hl(), r);
    }

    pub(crate) fn res_5_a(&mut self)
        ensures
            *final(self) == old(self).with_reg8(7, without_bit_spec(old(self).reg8(7), 5)),
    {
        self.registers.a = self.res_i(5, self.registers.a);
    }

    pub(crate) fn res_6_b(&mut self)
        ensures
            *final(self) == old(self).with_reg8(0, without_bit_spec(old(self).reg8(0), 6)),
    {
        self.registers.b = self.res_i(6, self.registers.b);
    }

    pub(crate) fn res_6_c(&mut self)
        ensures
            *final(self) == old(self).with_reg8(1, without_bit_spec(old(self).reg8(1), 6)),
    {
        self.registers.c = self.res_i(6, self.registers.c);
    }

    pub(crate) fn res_6_d(&mut self)
        ensures
            *final(self) == old(self).with_reg8(2, without_bit_spec(old(self).reg8(2), 6)),
    {
        self.registers.d = self.res_i(6, self.registers.d);
    }

    pub(crate) fn res_6_e(&mut self)
        ensures
            *final(self) == old(self).with_reg8(3, without_bit_spec(old(self).reg8(3), 6)),
    {
        self.registers.e = self.res_i(6, self.registers.e);
    }

    pub(crate) fn res_6_h(&mut self)
        ensures
            *final(self) == old(self).with_reg8(4, without_bit_spec(old(self).reg8(4), 6)),
    {
        self.registers.h = self.res_i(6, self.registers.h);
    }

    pub(crate) fn res_6_l(&mut self)
        ensures
            *final(self) == old(self).with_reg8(5, without_bit_spec(old(self).reg8(5), 6)),
    {
        self.registers.l = self.res_i(6, self.registers.l);
    }

    pub(crate) fn res_6_hl(&mut self, memory: &mut Memory)
        requires
            old(memory)@.wf(),
            can_execute_cb(*old(self), old(memory)@, 0xB6),
        ensures
            executes_cb(*old(self), old(memory)@, 0xB6, *final(self), final(memory)@),
            final(memory)@.wf(),
    {
        let n = memory.read_byte(self.registers.get_hl());
        let r = self.res_i(6, n);
        memory.write_byte(self.registers.get_hl(), r);
    }

    pub(crate) fn res_6_a(&mut self)
        ensures
            *final(self) == old(self).with_reg8(7, without_bit_spec(old(self).reg8(7), 6)),
    {
        self.registers.a = self.res_i(6, self.registers.a);
    }

    pub(crate) fn res_7_b(&mut self)
        ensures
            *final(self) == old(self).with_reg8(0, without_bit_spec(old(self).reg8(0), 7)),
    {
        self.registers.b = self.res_i(7, self.registers.b);
    }

    pub(crate) fn res_7_c(&mut self)
        ensures
            *final(self) == old(self).with_reg8(1, without_bit_spec(old(self).reg8(1), 7)),
    {
        self.registers.c = self.res_i(7, self.registers.c);
    }

    pub(crate) fn res_7_d(&mut self)
        ensures
            *final(self) == old(self).with_reg8(2, without_bit_spec(old(self).reg8(2), 7)),
    {
        self.registers.d = self.res_i(7, self.registers.d);
    }

    pub(crate) fn res_7_e(&mut self)
        ensures
            *final(self) == old(self).with_reg8(3, without_bit_spec(old(self).reg8(3), 7)),
    {
        self.registers.e = self.res_i(7, self.registers.e);
    }

    pub(crate) fn res_7_h(&mut self)
        ensures
            *final(self) == old(self).with_reg8(4, without_bit_spec(old(self).reg8(4), 7)),
    {
        self.registers.h = self.res_i(7, self.registers.h);
    }

    pub(crate) fn res_7_l(&mut self)
        ensures
            *final(self) == old(self).with_reg8(5, without_bit_spec(old(self).reg8(5), 7)),
    {
        self.registers.l = self.res_i(7, self.registers.l);
    }

    pub(crate) fn res_7_hl(&mut self, memory: &mut Memory)
        requires
            old(memory)@.wf(),
            can_execute_cb(*old(self), old(memory)@, 0xBE),
        ensures
            executes_cb(*old(self), old(memory)@, 0xBE, *final(self), final(memory)@),
            final(memory)@.wf(),
    {
        let n = memory.read_byte(self.registers.get_hl());
        let r = self.res_i(7, n);
        memory.write_byte(self.registers.get_hl(), r);
    }

    pub(crate) fn res_7_a(&mut self)
        ensures
            *final(self) == old(self).with_reg8(7, without_bit_spec(old(self).reg8(7), 7)),
    {
        self.registers.a = self.res_i(7, self.registers.a);
    }

    pub(crate) fn set_0_b(&mut self)
        ensures
            *final(self) == old(self).with_reg8(0, with_bit_spec(old(self).reg8(0), 0)),
    {
        self.registers.b = self.set_i(0, self.registers.b);
    }

    pub(crate) fn set_0_c(&mut self)
        ensures
            *final(self) == old(self).with_reg8(1, with_bit_spec(old(self).reg8(1), 0)),
    {
        self.registers.c = self.set_i(0, self.registers.c);
    }

    pub(crate) fn set_0_d(&mut self)
        ensures
            *final(self) == old(self).with_reg8(2, with_bit_spec(old(self).reg8(2), 0)),
    {
        self.registers.d = self.set_i(0, self.registers.d);
    }

    pub(crate) fn set_0_e(&mut self)
        ensures
            *final(self) == old(self).with_reg8(3, with_bit_spec(old(self).reg8(3), 0)),
    {
        self.registers.e = self.set_i(0, self.registers.e);
    }

    pub(crate) fn set_0_h(&mut self)
        ensures
            *final(self) == old(self).with_reg8(4, with_bit_spec(old(self).reg8(4), 0)),
    {
        self.registers.h = self.set_i(0, self.registers.h);
    }

    pub(crate) fn set_0_l(&mut self)
        ensures
            *final(self) == old(self).with_reg8(5, with_bit_spec(old(self).reg8(5), 0)),
    {
        self.registers.l = self.set_i(0, self.registers.l);
    }

    pub(crate) fn set_0_hl(&mut self, memory: &mut Memory)
        requires
            old(memory)@.wf(),
            can_execute_cb(*old(self), old(memory)@, 0xC6),
        ensures
            executes_cb(*old(self), old(memory)@, 0xC6, *final(self), final(memory)@),
            final(memory)@.wf(),
    {
        let n = memory.read_byte(self.registers.get_hl());
        let r = self.set_i(0, n);
        memory.write_byte(self.registers.get_hl(), r);
    }

    pub(crate) fn set_0_a(&mut self)
        ensures
            *final(self) == old(self).with_reg8(7, with_bit_spec(old(self).reg8(7), 0)),
    {
        self.registers.a = self.set_i(0, self.registers.a);
    }

    pub(crate) fn set_1_b(&mut self)
        ensures
            *final(self) == old(self).with_reg8(0, with_bit_spec(old(self).reg8(0), 1)),
    {
        self.registers.b = self.set_i(1, self.registers.b);
    }

    pub(crate) fn set_1_c(&mut self)
        ensures
            *final(self) == old(self).with_reg8(1, with_bit_spec(old(self).reg8(1), 1)),
    {
        self.registers.c = self.set_i(1, self.registers.c);
    }

    pub(crate) fn set_1_d(&mut self)
        ensures
            *final(self) == old(self).with_reg8(2, with_bit_spec(old(self).reg8(2), 1)),
    {
        self.registers.d = self.set_i(1, self.registers.d);
    }

    pub(crate) fn set_1_e(&mut self)
        ensures
            *final(self) == old(self).with_reg8(3, with_bit_spec(old(self).reg8(3), 1)),
    {
        self.registers.e = self.set_i(1, self.registers.e);
    }

    pub(crate) fn set_1_h(&mut self)
        ensures
            *final(self) == old(self).with_reg8(4, with_bit_spec(old(self).reg8(4), 1)),
    {
        self.registers.h = self.set_i(1, self.registers.h);
    }

    pub(crate) fn set_1_l(&mut self)
        ensures
            *final(self) == old(self).with_reg8(5, with_bit_spec(old(self).reg8(5), 1)),
    {
        self.registers.l = self.set_i(1, self.registers.l);
    }

    pub(crate) fn set_1_hl(&mut self, memory: &mut Memory)
        requires
            old(memory)@.wf(),
            can_execute_cb(*old(self), old(memory)@, 0xCE),
        ensures
            executes_cb(*old(self), old(memory)@, 0xCE, *final(self), final(memory)@),
            final(memory)@.wf(),
    {
        let n = memory.read_byte(self.registers.get_hl());
        let r = self.set_i(1, n);
        memory.write_byte(self.registers.get_hl(), r);
    }

    pub(crate) fn set_1_a(&mut self)
        ensures
            *final(self) == old(self).with_reg8(7, with_bit_spec(old(self).reg8(7), 1)),
    {
        self.registers.a = self.set_i(1, self.registers.a);
    }

    pub(crate) fn set_2_b(&mut self)
        ensures
            *final(self) == old(self).with_reg8(0, with_bit_spec(old(self).reg8(0), 2)),
    {
        self.registers.b = self.set_i(2, self.registers.b);
    }

    pub(crate) fn set_2_c(&mut self)
        ensures
            *final(self) == old(self).with_reg8(1, with_bit_spec(old(self).reg8(1), 2)),
    {
        self.registers.c = self.set_i(2, self.registers.c);
    }

    pub(crate) fn set_2_d(&mut self)
        ensures
            *final(self) == old(self).with_reg8(2, with_bit_spec(old(self).reg8(2), 2)),
    {
        self.registers.d = self.set_i(2, self.registers.d);
    }

    pub(crate) fn set_2_e(&mut self)
        ensures
            *final(self) == old(self).with_reg8(3, with_bit_spec(old(self).reg8(3), 2)),
    {
        self.registers.e = self.set_i(2, self.registers.e);
    }

    pub(crate) fn set_2_h(&mut self)
        ensures
            *final(self) == old(self).with_reg8(4, with_bit_spec(old(self).reg8(4), 2)),
    {
        self.registers.h = self.set_i(2, self.registers.h);
    }

    pub(crate) fn set_2_l(&mut self)
        ensures
            *final(self) == old(self).with_reg8(5, with_bit_spec(old(self).reg8(5), 2)),
    {
        self.registers.l = self.set_i(2, self.registers.l);
    }

    pub(crate) fn set_2_hl(&mut self, memory: &mut Memory)
        requires
            old(memory)@.wf(),
            can_execute_cb(*old(self), old(memory)@, 0xD6),
        ensures
            executes_cb(*old(self), old(memory)@, 0xD6, *final(self), final(memory)@),
            final(memory)@.wf(),
    {
        let n = memory.read_byte(self.registers.get_hl());
        let r = self.set_i(2, n);
        memory.write_byte(self.registers.get_hl(), r);
    }

    pub(crate) fn set_2_a(&mut self)
        ensures
            *final(self) == old(self).with_reg8(7, with_bit_spec(old(self).reg8(7), 2)),
    {
        self.registers.a = self.set_i(2, self.registers.a);
    }

    pub(crate) fn set_3_b(&mut self)
        ensures
            *final(self) == old(self).with_reg8(0, with_bit_spec(old(self).reg8(0), 3)),
    {
        self.registers.b = self.set_i(3, self.registers.b);
    }

    pub(crate) fn set_3_c(&mut self)
        ensures
            *final(self) == old(self).with_reg8(1, with_bit_spec(old(self).reg8(1), 3)),
    {
        self.registers.c = self.set_i(3, self.registers.c);
    }

    pub(crate) fn set_3_d(&mut self)
        ensures
            *final(self) == old(self).with_reg8(2, with_bit_spec(old(self).reg8(2), 3)),
    {
        self.registers.d = self.set_i(3, self.registers.d);
    }

    pub(crate) fn set_3_e(&mut self)
        ensures
            *final(self) == old(self).with_reg8(3, with_bit_spec(old(self).reg8(3), 3)),
    {
        self.registers.e = self.set_i(3, self.registers.e);
    }

    pub(crate) fn set_3_h(&mut self)
        ensures
            *final(self) == old(self).with_reg8(4, with_bit_spec(old(self).reg8(4), 3)),
    {
        self.registers.h = self.set_i(3, self.registers.h);
    }

    pub(crate) fn set_3_l(&mut self)
        ensures
            *final(self) == old(self).with_reg8(5, with_bit_spec(old(self).reg8(5), 3)),
    {
        self.registers.l = self.set_i(3, self.registers.l);
    }

    pub(crate) fn set_3_hl(&mut self, memory: &mut Memory)
        requires
            old(memory)@.wf(),
            can_execute_cb(*old(self), old(memory)@, 0xDE),
        ensures
            executes_cb(*old(self), old(memory)@, 0xDE, *final(self), final(memory)@),
            final(memory)@.wf(),
    {
        let n = memory.read_byte(self.registers.get_hl());
        let r = self.set_i(3, n);
        memory.write_byte(self.registers.get_hl(), r);
    }

    pub(crate) fn set_3_a(&mut self)
        ensures
            *final(self) == old(self).with_reg8(7, with_bit_spec(old(self).reg8(7), 3)),
    {
        self.registers.a = self.set_i(3, self.registers.a);
    }

    pub(crate) fn set_4_b(&mut self)
        ensures
            *final(self) == old(self).with_reg8(0, with_bit_spec(old(self).reg8(0), 4)),
    {
        self.registers.b = self.set_i(4, self.registers.b);
    }

    pub(crate) fn set_4_c(&mut self)
        ensures
            *final(self) == old(self).with_reg8(1, with_bit_spec(old(self).reg8(1), 4)),
    {
        self.registers.c = self.set_i(4, self.registers.c);
    }

    pub(crate) fn set_4_d(&mut self)
        ensures
            *final(self) == old(self).with_reg8(2, with_bit_spec(old(self).reg8(2), 4)),
    {
        self.registers.d = self.set_i(4, self.registers.d);
    }

    pub(crate) fn set_4_e(&mut self)
        ensures
            *final(self) == old(self).with_reg8(3, with_bit_spec(old(self).reg8(3), 4)),
    {
        self.registers.e = self.set_i(4, self.registers.e);
    }

    pub(crate) fn set_4_h(&mut self)
        ensures
            *final(self) == old(self).with_reg8(4, with_bit_spec(old(self).reg8(4), 4)),
    {
        self.registers.h = self.set_i(4, self.registers.h);
    }

    pub(crate) fn set_4_l(&mut self)
        ensures
            *final(self) == old(self).with_reg8(5, with_bit_spec(old(self).reg8(5), 4)),
    {
        self.registers.l = self.set_i(4, self.registers.l);
    }

    pub(crate) fn set_4_hl(&mut self, memory: &mut Memory)
        requires
            old(memory)@.wf(),
            can_execute_cb(*old(self), old(memory)@, 0xE6),
        ensures
            executes_cb(*old(self), old(memory)@, 0xE6, *final(self), final(memory)@),
            final(memory)@.wf(),
    {
        let n = memory.read_byte(self.registers.get_hl());
        let r = self.set_i(4, n);
        memory.write_byte(self.registers.get_hl(), r);
    }

    pub(crate) fn set_4_a(&mut self)
        ensures
            *final(self) == old(self).with_reg8(7, with_bit_spec(old(self).reg8(7), 4)),
    {
        self.registers.a = self.set_i(4, self.registers.a);
    }

    pub(crate) fn set_5_b(&mut self)
        ensures
            *final(self) == old(self).with_reg8(0, with_bit_spec(old(self).reg8(0), 5)),
    {
        self.registers.b = self.set_i(5, self.registers.b);
    }

    pub(crate) fn set_5_c(&mut self)
        ensures
            *final(self) == old(self).with_reg8(1, with_bit_spec(old(self).reg8(1), 5)),
    {
        self.registers.c = self.set_i(5, self.registers.c);
    }

    pub(crate) fn set_5_d(&mut self)
        ensures
            *final(self) == old(self).with_reg8(2, with_bit_spec(old(self).reg8(2), 5)),
    {
        self.registers.d = self.set_i(5, self.registers.d);
    }

    pub(crate) fn set_5_e(&mut self)
        ensures
            *final(self) == old(self).with_reg8(3, with_bit_spec(old(self).reg8(3), 5)),
    {
        self.registers.e = self.set_i(5, self.registers.e);
    }

    pub(crate) fn set_5_h(&mut self)
        ensures
            *final(self) == old(self).with_reg8(4, with_bit_spec(old(self).reg8(4), 5)),
    {
        self.registers.h = self.set_i(5, self.registers.h);
    }

    pub(crate) fn set_5_l(&mut self)
        ensures
            *final(self) == old(self).with_reg8(5, with_bit_spec(old(self).reg8(5), 5)),
    {
        self.registers.l = self.set_i(5, self.registers.l);
    }

    pub(crate) fn set_5_hl(&mut self, memory: &mut Memory)
        requires
            old(memory)@.wf(),
            can_execute_cb(*old(self), old(memory)@, 0xEE),
        ensures
            executes_cb(*old(self), old(memory)@, 0xEE, *final(self), final(memory)@),
            final(memory)@.wf(),
    {
        let n = memory.read_byte(self.registers.get_hl());
        let r = self.set_i(5, n);
        memory.write_byte(self.registers.get_hl(), r);
    }

    pub(crate) fn set_5_a(&mut self)
        ensures
            *final(self) == old(self).with_reg8(7, with_bit_spec(old(self).reg8(7), 5)),
    {
        self.registers.a = self.set_i(5, self.registers.a);
    }

    pub(crate) fn set_6_b(&mut self)
        ensures
            *final(self) == old(self).with_reg8(0, with_bit_spec(old(self).reg8(0), 6)),
    {
        self.registers.b = self.set_i(6, self.registers.b);
    }

    pub(crate) fn set_6_c(&mut self)
        ensures
            *final(self) == old(self).with_reg8(1, with_bit_spec(old(self).reg8(1), 6)),
    {
        self.registers.c = self.set_i(6, self.registers.c);
    }

    pub(crate) fn set_6_d(&mut self)
        ensures
            *final(self) == old(self).with_reg8(2, with_bit_spec(old(self).reg8(2), 6)),
    {
        self.registers.d = self.set_i(6, self.registers.d);
    }

    pub(crate) fn set_6_e(&mut self)
        ensures
            *final(self) == old(self).with_reg8(3, with_bit_spec(old(self).reg8(3), 6)),
    {
        self.registers.e = self.set_i(6, self.registers.e);
    }

    pub(crate) fn set_6_h(&mut self)
        ensures
            *final(self) == old(self).with_reg8(4, with_bit_spec(old(self).reg8(4), 6)),
    {
        self.registers.h = self.set_i(6, self.registers.h);
    }

    pub(crate) fn set_6_l(&mut self)
        ensures
            *final(self) == old(self).with_reg8(5, with_bit_spec(old(self).reg8(5), 6)),
    {
        self.registers.l = self.set_i(6, self.registers.l);
    }

    pub(crate) fn set_6_hl(&mut self, memory: &mut Memory)
        requires
            old(memory)@.wf(),
            can_execute_cb(*old(self), old(memory)@, 0xF6),
        ensures
            executes_cb(*old(self), old(memory)@, 0xF6, *final(self), final(memory)@),
            final(memory)@.wf(),
    {
        let n = memory.read_byte(self.registers.get_hl());
        let r = self.set_i(6, n);
        memory.write_byte(self.registers.get_hl(), r);
    }

    pub(crate) fn set_6_a(&mut self)
        ensures
            *final(self) == old(self).with_reg8(7, with_bit_spec(old(self).reg8(7), 6)),
    {
        self.registers.a = self.set_i(6, self.registers.a);
    }

    pub(crate) fn set_7_b(&mut self)
        ensures
            *final(self) == old(self).with_reg8(0, with_bit_spec(old(self).reg8(0), 7)),
    {
        self.registers.b = self.set_i(7, self.registers.b);
    }

    pub(crate) fn set_7_c(&mut self)
        ensures
            *final(self) == old(self).with_reg8(1, with_bit_spec(old(self).reg8(1), 7)),
    {
        self.registers.c = self.set_i(7, self.registers.c);
    }

    pub(crate) fn set_7_d(&mut self)
        ensures
            *final(self) == old(self).with_reg8(2, with_bit_spec(old(self).reg8(2), 7)),
    {
        self.registers.d = self.set_i(7, self.registers.d);
    }

    pub(crate) fn set_7_e(&mut self)
        ensures
            *final(self) == old(self).with_reg8(3, with_bit_spec(old(self).reg8(3), 7)),
    {
        self.registers.e = self.set_i(7, self.registers.e);
    }

    pub(crate) fn set_7_h(&mut self)
        ensures
            *final(self) == old(self).with_reg8(4, with_bit_spec(old(self).reg8(4), 7)),
    {
        self.registers.h = self.set_i(7, self.registers.h);
    }

    pub(crate) fn set_7_l(&mut self)
        ensures
            *final(self) == old(self).with_reg8(5, with_bit_spec(old(self).reg8(5), 7)),
    {
        self.registers.l = self.set_i(7, self.registers.l);
    }

    pub(crate) fn set_7_hl(&mut self, memory: &mut Memory)
        requires
            old(memory)@.wf(),
            can_execute_cb(*old(self), old(memory)@, 0xFE),
        ensures
            executes_cb(*old(self), old(memory)@, 0xFE, *final(self), final(memory)@),
            final(memory)@.wf(),
    {
        let n = memory.read_byte(self.registers.get_hl());
        let r = self.set_i(7, n);
        memory.write_byte(self.registers.get_hl(), r);
    }

    pub(crate) fn set_7_a(&mut self)
        ensures
            *final(self) == old(self).with_reg8(7, with_bit_spec(old(self).reg8(7), 7)),
    {
        self.registers.a = self.set_i(7, self.registers.a);
    }

    /// Prefixed opcodes 0x00..=0x3F: rotates and shifts.
    pub(crate) fn ext_shift(&mut self, opcode: u8, memory: &mut Memory)
        requires
            old(memory)@.wf(),
            0x00 <= opcode <= 0x3F,
            can_execute_cb(*old(self), old(memory)@, opcode),
        ensures
            executes_cb(*old(self), old(memory)@, opcode, *final(self), final(memory)@),
            final(memory)@.wf(),
    {
        match opcode {
            0x00 => self.rlc_b(),
            0x01 => self.rlc_c(),
            0x02 => self.rlc_d(),
            0x03 => self.rlc_e(),
            0x04 => self.rlc_h(),
            0x05 => self.rlc_l(),
            0x06 => self.rlc_hl(memory),
            0x07 => self.rlc_a_cb(),
            0x08 => self.rrc_b(),
            0x09 => self.rrc_c(),
            0x0A => self.rrc_d(),
            0x0B => self.rrc_e(),
            0x0C => self.rrc_h(),
            0x0D => self.rrc_l(),
            0x0E => self.rrc_hl(memory),
            0x0F => self.rrc_a_cb(),
            0x10 => self.rl_b(),
            0x11 => self.rl_c(),
            0x12 => self.rl_d(),
            0x13 => self.rl_e(),
            0x14 => self.rl_h(),
            0x15 => self.rl_l(),
            0x16 => self.rl_hl(memory),
            0x17 => self.rl_a_cb(),
            0x18 => self.rr_b(),
            0x19 => self.rr_c(),
            0x1A => self.rr_d(),
            0x1B => self.rr_e(),
            0x1C => self.rr_h(),
            0x1D => self.rr_l(),
            0x1E => self.rr_hl(memory),
            0x1F => self.rr_a_cb(),
            0x20 => self.sla_b(),
            0x21 => self.sla_c(),
            0x22 => self.sla_d(),
            0x23 => self.sla_e(),
            0x24 => self.sla_h(),
            0x25 => self.sla_l(),
            0x26 => self.sla_hl(memory),
            0x27 => self.sla_a(),
            0x28 => self.sra_b(),
            0x29 => self.sra_c(),
            0x2A => self.sra_d(),
            0x2B => self.sra_e(),
            0x2C => self.sra_h(),
            0x2D => self.sra_l(),
            0x2E => self.sra_hl(memory),
            0x2F => self.sra_a(),
            0x30 => self.swap_b(),
            0x31 => self.swap_c(),
            0x32 => self.swap_d(),
            0x33 => self.swap_e(),
            0x34 => self.swap_h(),
            0x35 => self.swap_l(),
            0x36 => self.swap_hl(memory),
            0x37 => self.swap_a(),
            0x38 => self.srl_b(),
            0x39 => self.srl_c(),
            0x3A => self.srl_d(),
            0x3B => self.srl_e(),
            0x3C => self.srl_h(),
            0x3D => self.srl_l(),
            0x3E => self.srl_hl(memory),
            _ => self.srl_a(),
        }
    }

    /// Prefixed opcodes 0x40..=0x7F: bit tests.
    pub(crate) fn ext_bit(&mut self, opcode: u8, memory: &mut Memory)
        requires
            old(memory)@.wf(),
            0x40 <= opcode <= 0x7F,
            can_execute_cb(*old(self), old(memory)@, opcode),
        ensures
            executes_cb(*old(self), old(memory)@, opcode, *final(self), final(memory)@),
            final(memory)@.wf(),
    {
        match opcode {
            0x40 => self.bit_0_b(),
            0x41 => self.bit_0_c(),
            0x42 => self.bit_0_d(),
            0x43 => self.bit_0_e(),
            0x44 => self.bit_0_h(),
            0x45 => self.bit_0_l(),
            0x46 => self.bit_0_hl(memory),
            0x47 => self.bit_0_a(),
            0x48 => self.bit_1_b(),
            0x49 => self.bit_1_c(),
            0x4A => self.bit_1_d(),
            0x4B => self.bit_1_e(),
            0x4C => self.bit_1_h(),
            0x4D => self.bit_1_l(),
            0x4E => self.bit_1_hl(memory),
            0x4F => self.bit_1_a(),
            0x50 => self.bit_2_b(),
            0x51 => self.bit_2_c(),
            0x52 => self.bit_2_d(),
            0x53 => self.bit_2_e(),
            0x54 => self.bit_2_h(),
            0x55 => self.bit_2_l(),
            0x56 => self.bit_2_hl(memory),
            0x57 => self.bit_2_a(),
            0x58 => self.bit_3_b(),
            0x59 => self.bit_3_c(),
            0x5A => self.bit_3_d(),
            0x5B => self.bit_3_e(),
            0x5C => self.bit_3_h(),
            0x5D => self.bit_3_l(),
            0x5E => self.bit_3_hl(memory),
            0x5F => self.bit_3_a(),
            0x60 => self.bit_4_b(),
            0x61 => self.bit_4_c(),
            0x62 => self.bit_4_d(),
            0x63 => self.bit_4_e(),
            0x64 => self.bit_4_h(),
            0x65 => self.bit_4_l(),
            0x66 => self.bit_4_hl(memory),
            0x67 => self.bit_4_a(),
            0x68 => self.bit_5_b(),
            0x69 => self.bit_5_c(),
            0x6A => self.bit_5_d(),
            0x6B => self.bit_5_e(),
            0x6C => self.bit_5_h(),
            0x6D => self.bit_5_l(),
            0x6E => self.bit_5_hl(memory),
            0x6F => self.bit_5_a(),
            0x70 => self.bit_6_b(),
            0x71 => self.bit_6_c(),
            0x72 => self.bit_6_d(),
            0x73 => self.bit_6_e(),
            0x74 => self.bit_6_h(),
            0x75 => self.bit_6_l(),
            0x76 => self.bit_6_hl(memory),
            0x77 => self.bit_6_a(),
            0x78 => self.bit_7_b(),
            0x79 => self.bit_7_c(),
            0x7A => self.bit_7_d(),
            0x7B => self.bit_7_e(),
            0x7C => self.bit_7_h(),
            0x7D => self.bit_7_l(),
            0x7E => self.bit_7_hl(memory),
            _ => self.bit_7_a(),
        }
    }

    /// Prefixed opcodes 0x80..=0xBF: bit clears.
    pub(crate) fn ext_res(&mut self, opcode: u8, memory: &mut Memory)
        requires
            old(memory)@.wf(),
            0x80 <= opcode <= 0xBF,
            can_execute_cb(*old(self), old(memory)@, opcode),
        ensures
            executes_cb(*old(self), old(memory)@, opcode, *final(self), final(memory)@),
            final(memory)@.wf(),
    {
        match opcode {
            0x80 => self.res_0_b(),
            0x81 => self.res_0_c(),
            0x82 => self.res_0_d(),
            0x83 => self.res_0_e(),
            0x84 => self.res_0_h(),
            0x85 => self.res_0_l(),
            0x86 => self.res_0_hl(memory),
            0x87 => self.res_0_a(),
            0x88 => self.res_1_b(),
            0x89 => self.res_1_c(),
            0x8A => self.res_1_d(),
            0x8B => self.res_1_e(),
            0x8C => self.res_1_h(),
            0x8D => self.res_1_l(),
            0x8E => self.res_1_hl(memory),
            0x8F => self.res_1_a(),
            0x90 => self.res_2_b(),
            0x91 => self.res_2_c(),
            0x92 => self.res_2_d(),
            0x93 => self.res_2_e(),
            0x94 => self.res_2_h(),
            0x95 => self.res_2_l(),
            0x96 => self.res_2_hl(memory),
            0x97 => self.res_2_a(),
            0x98 => self.res_3_b(),
            0x99 => self.res_3_c(),
            0x9A => self.res_3_d(),
            0x9B => self.res_3_e(),
            0x9C => self.res_3_h(),
            0x9D => self.res_3_l(),
            0x9E => self.res_3_hl(memory),
            0x9F => self.res_3_a(),
            0xA0 => self.res_4_b(),
            0xA1 => self.res_4_c(),
            0xA2 => self.res_4_d(),
            0xA3 => self.res_4_e(),
            0xA4 => self.res_4_h(),
            0xA5 => self.res_4_l(),
            0xA6 => self.res_4_hl(memory),
            0xA7 => self.res_4_a(),
            0xA8 => self.res_5_b(),
            0xA9 => self.res_5_c(),
            0xAA => self.res_5_d(),
            0xAB => self.res_5_e(),
            0xAC => self.res_5_h(),
            0xAD => self.res_5_l(),
            0xAE => self.res_5_hl(memory),
            0xAF => self.res_5_a(),
            0xB0 => self.res_6_b(),
            0xB1 => self.res_6_c(),
            0xB2 => self.res_6_d(),
            0xB3 => self.res_6_e(),
            0xB4 => self.res_6_h(),
            0xB5 => self.res_6_l(),
            0xB6 => self.res_6_hl(memory),
            0xB7 => self.res_6_a(),
            0xB8 => self.res_7_b(),
            0xB9 => self.res_7_c(),
            0xBA => self.res_7_d(),
            0xBB => self.res_7_e(),
            0xBC => self.res_7_h(),
            0xBD => self.res_7_l(),
            0xBE => self.res_7_hl(memory),
            _ => self.res_7_a(),
        }
    }

    /// Prefixed opcodes 0xC0..=0xFF: bit sets.
    pub(crate) fn ext_set(&mut self, opcode: u8, memory: &mut Memory)
        requires
            old(memory)@.wf(),
            0xC0 <= opcode <= 0xFF,
            can_execute_cb(*old(self), old(memory)@, opcode),
        ensures
            executes_cb(*old(self), old(memory)@, opcode, *final(self), final(memory)@),
            final(memory)@.wf(),
    {
        match opcode {
            0xC0 => self.set_0_b(),
            0xC1 => self.set_0_c(),
            0xC2 => self.set_0_d(),
            0xC3 => self.set_0_e(),
            0xC4 => self.set_0_h(),
            0xC5 => self.set_0_l(),
            0xC6 => self.set_0_hl(memory),
            0xC7 => self.set_0_a(),
            0xC8 => self.set_1_b(),
            0xC9 => self.set_1_c(),
            0xCA => self.set_1_d(),
            0xCB => self.set_1_e(),
            0xCC => self.set_1_h(),
            0xCD => self.set_1_l(),
            0xCE => self.set_1_hl(memory),
            0xCF => self.set_1_a(),
            0xD0 => self.set_2_b(),
            0xD1 => self.set_2_c(),
            0xD2 => self.set_2_d(),
            0xD3 => self.set_2_e(),
            0xD4 => self.set_2_h(),
            0xD5 => self.set_2_l(),
            0xD6 => self.set_2_hl(memory),
            0xD7 => self.set_2_a(),
            0xD8 => self.set_3_b(),
            0xD9 => self.set_3_c(),
            0xDA => self.set_3_d(),
            0xDB => self.set_3_e(),
            0xDC => self.set_3_h(),
            0xDD => self.set_3_l(),
            0xDE => self.set_3_hl(memory),
            0xDF => self.set_3_a(),
            0xE0 => self.set_4_b(),
            0xE1 => self.set_4_c(),
            0xE2 => self.set_4_d(),
            0xE3 => self.set_4_e(),
            0xE4 => self.set_4_h(),
            0xE5 => self.set_4_l(),
            0xE6 => self.set_4_hl(memory),
            0xE7 => self.set_4_a(),
            0xE8 => self.set_5_b(),
            0xE9 => self.set_5_c(),
            0xEA => self.set_5_d(),
            0xEB => self.set_5_e(),
            0xEC => self.set_5_h(),
            0xED => self.set_5_l(),
            0xEE => self.set_5_hl(memory),
            0xEF => self.set_5_a(),
            0xF0 => self.set_6_b(),
            0xF1 => self.set_6_c(),
            0xF2 => self.set_6_d(),
            0xF3 => self.set_6_e(),
            0xF4 => self.set_6_h(),
            0xF5 => self.set_6_l(),
            0xF6 => self.set_6_hl(memory),
            0xF7 => self.set_6_a(),
            0xF8 => self.set_7_b(),
            0xF9 => self.set_7_c(),
            0xFA => self.set_7_d(),
            0xFB => self.set_7_e(),
            0xFC => self.set_7_h(),
            0xFD => self.set_7_l(),
            0xFE => self.set_7_hl(memory),
            _ => self.set_7_a(),
        }
    }
}

} // verus!
