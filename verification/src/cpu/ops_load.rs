use vstd::prelude::*;
use crate::bit_utils::{with_bit_spec, without_bit_spec};
use crate::cpu::Cpu;
use crate::cpu::alu::{wrap8, wrap16, inc_flags, dec_flags, bit_flags};
use crate::cpu::flag::flag_of;
use crate::cpu::registers::{Registers, high_byte, low_byte};
use crate::cpu::semantics::{stores, pushes, can_pop, can_execute, can_execute_cb, executes, executes_cb};
use crate::mmu::memory::{Memory, readable, writes_word};

verus! {

impl Cpu {
    pub(crate) fn ld_b_b(&mut self)
        ensures
            *final(self) == old(self).with_reg8(0, old(self).reg8(0)),
    {
        self.registers.b = self.ld_r_r(self.registers.b);
    }

    pub(crate) fn ld_b_c(&mut self)
        ensures
            *final(self) == old(self).with_reg8(0, old(self).reg8(1)),
    {
        self.registers.b = self.ld_r_r(self.registers.c);
    }

    pub(crate) fn ld_b_d(&mut self)
        ensures
            *final(self) == old(self).with_reg8(0, old(self).reg8(2)),
    {
        self.registers.b = self.ld_r_r(self.registers.d);
    }

    pub(crate) fn ld_b_e(&mut self)
        ensures
            *final(self) == old(self).with_reg8(0, old(self).reg8(3)),
    {
        self.registers.b = self.ld_r_r(self.registers.e);
    }

    pub(crate) fn ld_b_h(&mut self)
        ensures
            *final(self) == old(self).with_reg8(0, old(self).reg8(4)),
    {
        self.registers.b = self.ld_r_r(self.registers.h);
    }

    pub(crate) fn ld_b_l(&mut self)
        ensures
            *final(self) == old(self).with_reg8(0, old(self).reg8(5)),
    {
        self.registers.b = self.ld_r_r(self.registers.l);
    }

    pub(crate) fn ld_b_hl(&mut self, memory: &Memory)
        requires
            memory@.wf(),
            readable(old(self).hl()),
        ensures
            *final(self) == old(self).with_reg8(0, memory@.read(old(self).hl())),
    {
        self.registers.b = self.ld_r_hl(memory);
    }

    pub(crate) fn ld_b_a(&mut self)
        ensures
            *final(self) == old(self).with_reg8(0, old(self).reg8(7)),
    {
        self.registers.b = self.ld_r_r(self.registers.a);
    }

    pub(crate) fn ld_c_b(&mut self)
        ensures
            *final(self) == old(self).with_reg8(1, old(self).reg8(0)),
    {
        self.registers.c = self.ld_r_r(self.registers.b);
    }

    pub(crate) fn ld_c_c(&mut self)
        ensures
            *final(self) == old(self).with_reg8(1, old(self).reg8(1)),
    {
        self.registers.c = self.ld_r_r(self.registers.c);
    }

    pub(crate) fn ld_c_d(&mut self)
        ensures
            *final(self) == old(self).with_reg8(1, old(self).reg8(2)),
    {
        self.registers.c = self.ld_r_r(self.registers.d);
    }

    pub(crate) fn ld_c_e(&mut self)
        ensures
            *final(self) == old(self).with_reg8(1, old(self).reg8(3)),
    {
        self.registers.c = self.ld_r_r(self.registers.e);
    }

    pub(crate) fn ld_c_h(&mut self)
        ensures
            *final(self) == old(self).with_reg8(1, old(self).reg8(4)),
    {
        self.registers.c = self.ld_r_r(self.registers.h);
    }

    pub(crate) fn ld_c_l(&mut self)
        ensures
            *final(self) == old(self).with_reg8(1, old(self).reg8(5)),
    {
        self.registers.c = self.ld_r_r(self.registers.l);
    }

    pub(crate) fn ld_c_hl(&mut self, memory: &Memory)
        requires
            memory@.wf(),
            readable(old(self).hl()),
        ensures
            *final(self) == old(self).with_reg8(1, memory@.read(old(self).hl())),
    {
        self.registers.c = self.ld_r_hl(memory);
    }

    pub(crate) fn ld_c_a(&mut self)
        ensures
            *final(self) == old(self).with_reg8(1, old(self).reg8(7)),
    {
        self.registers.c = self.ld_r_r(self.registers.a);
    }

    pub(crate) fn ld_d_b(&mut self)
        ensures
            *final(self) == old(self).with_reg8(2, old(self).reg8(0)),
    {
        self.registers.d = self.ld_r_r(self.registers.b);
    }

    pub(crate) fn ld_d_c(&mut self)
        ensures
            *final(self) == old(self).with_reg8(2, old(self).reg8(1)),
    {
        self.registers.d = self.ld_r_r(self.registers.c);
    }

    pub(crate) fn ld_d_d(&mut self)
        ensures
            *final(self) == old(self).with_reg8(2, old(self).reg8(2)),
    {
        self.registers.d = self.ld_r_r(self.registers.d);
    }

    pub(crate) fn ld_d_e(&mut self)
        ensures
            *final(self) == old(self).with_reg8(2, old(self).reg8(3)),
    {
        self.registers.d = self.ld_r_r(self.registers.e);
    }

    pub(crate) fn ld_d_h(&mut self)
        ensures
            *final(self) == old(self).with_reg8(2, old(self).reg8(4)),
    {
        self.registers.d = self.ld_r_r(self.registers.h);
    }

    pub(crate) fn ld_d_l(&mut self)
        ensures
            *final(self) == old(self).with_reg8(2, old(self).reg8(5)),
    {
        self.registers.d = self.ld_r_r(self.registers.l);
    }

    pub(crate) fn ld_d_hl(&mut self, memory: &Memory)
        requires
            memory@.wf(),
            readable(old(self).hl()),
        ensures
            *final(self) == old(self).with_reg8(2, memory@.read(old(self).hl())),
    {
        self.registers.d = self.ld_r_hl(memory);
    }

    pub(crate) fn ld_d_a(&mut self)
        ensures
            *final(self) == old(self).with_reg8(2, old(self).reg8(7)),
    {
        self.registers.d = self.ld_r_r(self.registers.a);
    }

    pub(crate) fn ld_e_b(&mut self)
        ensures
            *final(self) == old(self).with_reg8(3, old(self).reg8(0)),
    {
        self.registers.e = self.ld_r_r(self.registers.b);
    }

    pub(crate) fn ld_e_c(&mut self)
        ensures
            *final(self) == old(self).with_reg8(3, old(self).reg8(1)),
    {
        self.registers.e = self.ld_r_r(self.registers.c);
    }

    pub(crate) fn ld_e_d(&mut self)
        ensures
            *final(self) == old(self).with_reg8(3, old(self).reg8(2)),
    {
        self.registers.e = self.ld_r_r(self.registers.d);
    }

    pub(crate) fn ld_e_e(&mut self)
        ensures
            *final(self) == old(self).with_reg8(3, old(self).reg8(3)),
    {
        self.registers.e = self.ld_r_r(self.registers.e);
    }

    pub(crate) fn ld_e_h(&mut self)
        ensures
            *final(self) == old(self).with_reg8(3, old(self).reg8(4)),
    {
        self.registers.e = self.ld_r_r(self.registers.h);
    }

    pub(crate) fn ld_e_l(&mut self)
        ensures
            *final(self) == old(self).with_reg8(3, old(self).reg8(5)),
    {
        self.registers.e = self.ld_r_r(self.registers.l);
    }

    pub(crate) fn ld_e_hl(&mut self, memory: &Memory)
        requires
            memory@.wf(),
            readable(old(self).hl()),
        ensures
            *final(self) == old(self).with_reg8(3, memory@.read(old(self).hl())),
    {
        self.registers.e = self.ld_r_hl(memory);
    }

    pub(crate) fn ld_e_a(&mut self)
        ensures
            *final(self) == old(self).with_reg8(3, old(self).reg8(7)),
    {
        self.registers.e = self.ld_r_r(self.registers.a);
    }

    pub(crate) fn ld_h_b(&mut self)
        ensures
            *final(self) == old(self).with_reg8(4, old(self).reg8(0)),
    {
        self.registers.h = self.ld_r_r(self.registers.b);
    }

    pub(crate) fn ld_h_c(&mut self)
        ensures
            *final(self) == old(self).with_reg8(4, old(self).reg8(1)),
    {
        self.registers.h = self.ld_r_r(self.registers.c);
    }

    pub(crate) fn ld_h_d(&mut self)
        ensures
            *final(self) == old(self).with_reg8(4, old(self).reg8(2)),
    {
        self.registers.h = self.ld_r_r(self.registers.d);
    }

    pub(crate) fn ld_h_e(&mut self)
        ensures
            *final(self) == old(self).with_reg8(4, old(self).reg8(3)),
    {
        self.registers.h = self.ld_r_r(self.registers.e);
    }

    pub(crate) fn ld_h_h(&mut self)
        ensures
            *final(self) == old(self).with_reg8(4, old(self).reg8(4)),
    {
        self.registers.h = self.ld_r_r(self.registers.h);
    }

    pub(crate) fn ld_h_l(&mut self)
        ensures
            *final(self) == old(self).with_reg8(4, old(self).reg8(5)),
    {
        self.registers.h = self.ld_r_r(self.registers.l);
    }

    pub(crate) fn ld_h_hl(&mut self, memory: &Memory)
        requires
            memory@.wf(),
            readable(old(self).hl()),
        ensures
            *final(self) == old(self).with_reg8(4, memory@.read(old(self).hl())),
    {
        self.registers.h = self.ld_r_hl(memory);
    }

    pub(crate) fn ld_h_a(&mut self)
        ensures
            *final(self) == old(self).with_reg8(4, old(self).reg8(7)),
    {
        self.registers.h = self.ld_r_r(self.registers.a);
    }

    pub(crate) fn ld_l_b(&mut self)
        ensures
            *final(self) == old(self).with_reg8(5, old(self).reg8(0)),
    {
        self.registers.l = self.ld_r_r(self.registers.b);
    }

    pub(crate) fn ld_l_c(&mut self)
        ensures
            *final(self) == old(self).with_reg8(5, old(self).reg8(1)),
    {
        self.registers.l = self.ld_r_r(self.registers.c);
    }

    pub(crate) fn ld_l_d(&mut self)
        ensures
            *final(self) == old(self).with_reg8(5, old(self).reg8(2)),
    {
        self.registers.l = self.ld_r_r(self.registers.d);
    }

    pub(crate) fn ld_l_e(&mut self)
        ensures
            *final(self) == old(self).with_reg8(5, old(self).reg8(3)),
    {
        self.registers.l = self.ld_r_r(self.registers.e);
    }

    pub(crate) fn ld_l_h(&mut self)
        ensures
            *final(self) == old(self).with_reg8(5, old(self).reg8(4)),
    {
        self.registers.l = self.ld_r_r(self.registers.h);
    }

    pub(crate) fn ld_l_l(&mut self)
        ensures
            *final(self) == old(self).with_reg8(5, old(self).reg8(5)),
    {
        self.registers.l = self.ld_r_r(self.registers.l);
    }

    pub(crate) fn ld_l_hl(&mut self, memory: &Memory)
        requires
            memory@.wf(),
            readable(old(self).hl()),
        ensures
            *final(self) == old(self).with_reg8(5, memory@.read(old(self).hl())),
    {
        self.registers.l = self.ld_r_hl(memory);
    }

    pub(crate) fn ld_l_a(&mut self)
        ensures
            *final(self) == old(self).with_reg8(5, old(self).reg8(7)),
    {
        self.registers.l = self.ld_r_r(self.registers.a);
    }

    pub(crate) fn ld_hl_b(&mut self, memory: &mut Memory)
        requires
            old(memory)@.wf(),
            old(memory)@.write_ok(old(self).hl(), old(self).reg8(0)),
        ensures
            stores(old(memory)@, final(memory)@, old(self).hl(), old(self).reg8(0), *old(self), *final(self)),
            final(memory)@.wf(),
    {
        self.ld_hl_r(self.registers.b, memory);
    }

    pub(crate) fn ld_hl_c(&mut self, memory: &mut Memory)
        requires
            old(memory)@.wf(),
            old(memory)@.write_ok(old(self).hl(), old(self).reg8(1)),
        ensures
            stores(old(memory)@, final(memory)@, old(self).hl(), old(self).reg8(1), *old(self), *final(self)),
            final(memory)@.wf(),
    {
        self.ld_hl_r(self.registers.c, memory);
    }

    pub(crate) fn ld_hl_d(&mut self, memory: &mut Memory)
        requires
            old(memory)@.wf(),
            old(memory)@.write_ok(old(self).hl(), old(self).reg8(2)),
        ensures
            stores(old(memory)@, final(memory)@, old(self).hl(), old(self).reg8(2), *old(self), *final(self)),
            final(memory)@.wf(),
    {
        self.ld_hl_r(self.registers.d, memory);
    }

    pub(crate) fn ld_hl_e(&mut self, memory: &mut Memory)
        requires
            old(memory)@.wf(),
            old(memory)@.write_ok(old(self).hl(), old(self).reg8(3)),
        ensures
            stores(old(memory)@, final(memory)@, old(self).hl(), old(self).reg8(3), *old(self), *final(self)),
            final(memory)@.wf(),
    {
        self.ld_hl_r(self.registers.e, memory);
    }

    pub(crate) fn ld_hl_h(&mut self, memory: &mut Memory)
        requires
            old(memory)@.wf(),
            old(memory)@.write_ok(old(self).hl(), old(self).reg8(4)),
        ensures
            stores(old(memory)@, final(memory)@, old(self).hl(), old(self).reg8(4), *old(self), *final(self)),
            final(memory)@.wf(),
    {
        self.ld_hl_r(self.registers.h, memory);
    }

    pub(crate) fn ld_hl_l(&mut self, memory: &mut Memory)
        requires
            old(memory)@.wf(),
            old(memory)@.write_ok(old(self).hl(), old(self).reg8(5)),
        ensures
            stores(old(memory)@, final(memory)@, old(self).hl(), old(self).reg8(5), *old(self), *final(self)),
            final(memory)@.wf(),
    {
        self.ld_hl_r(self.registers.l, memory);
    }

    pub(crate) fn ld_hl_a(&mut self, memory: &mut Memory)
        requires
            old(memory)@.wf(),
            old(memory)@.write_ok(old(self).hl(), old(self).reg8(7)),
        ensures
            stores(old(memory)@, final(memory)@, old(self).hl(), old(self).reg8(7), *old(self), *final(self)),
            final(memory)@.wf(),
    {
        self.ld_hl_r(self.registers.a, memory);
    }

    pub(crate) fn ld_a_b(&mut self)
        ensures
            *final(self) == old(self).with_reg8(7, old(self).reg8(0)),
    {
        self.registers.a = self.ld_r_r(self.registers.b);
    }

    pub(crate) fn ld_a_c(&mut self)
        ensures
            *final(self) == old(self).with_reg8(7, old(self).reg8(1)),
    {
        self.registers.a = self.ld_r_r(self.registers.c);
    }

    pub(crate) fn ld_a_d(&mut self)
        ensures
            *final(self) == old(self).with_reg8(7, old(self).reg8(2)),
    {
        self.registers.a = self.ld_r_r(self.registers.d);
    }

    pub(crate) fn ld_a_e(&mut self)
        ensures
            *final(self) == old(self).with_reg8(7, old(self).reg8(3)),
    {
        self.registers.a = self.ld_r_r(self.registers.e);
    }

    pub(crate) fn ld_a_h(&mut self)
        ensures
            *final(self) == old(self).with_reg8(7, old(self).reg8(4)),
    {
        self.registers.a = self.ld_r_r(self.registers.h);
    }

    pub(crate) fn ld_a_l(&mut self)
        ensures
            *final(self) == old(self).with_reg8(7, old(self).reg8(5)),
    {
        self.registers.a = self.ld_r_r(self.registers.l);
    }

    pub(crate) fn ld_a_hl(&mut self, memory: &Memory)
        requires
            memory@.wf(),
            readable(old(self).hl()),
        ensures
            *final(self) == old(self).with_reg8(7, memory@.read(old(self).hl())),
    {
        self.registers.a = self.ld_r_hl(memory);
    }

    pub(crate) fn ld_a_a(&mut self)
        ensures
            *final(self) == old(self).with_reg8(7, old(self).reg8(7)),
    {
        self.registers.a = self.ld_r_r(self.registers.a);
    }

    /// Opcodes 0x40..=0x7F.
    #[verifier::rlimit(100)]
    #[verifier::spinoff_prover]
    pub(crate) fn execute_load(&mut self, opcode: u8, memory: &mut Memory)
        requires
            old(memory)@.wf(),
            0x40 <= opcode <= 0x7F,
            can_execute(*old(self), old(memory)@, opcode),
        ensures
            executes(*old(self), old(memory)@, opcode, *final(self), final(memory)@),
            final(memory)@.wf(),
    {
        proof {
            reveal(executes);
            reveal(can_execute);
        }
        match opcode {
            0x40 => self.ld_b_b(),
            0x41 => self.ld_b_c(),
            0x42 => self.ld_b_d(),
            0x43 => self.ld_b_e(),
            0x44 => self.ld_b_h(),
            0x45 => self.ld_b_l(),
            0x46 => self.ld_b_hl(memory),
            0x47 => self.ld_b_a(),
            0x48 => self.ld_c_b(),
            0x49 => self.ld_c_c(),
            0x4A => self.ld_c_d(),
            0x4B => self.ld_c_e(),
            0x4C => self.ld_c_h(),
            0x4D => self.ld_c_l(),
            0x4E => self.ld_c_hl(memory),
            0x4F => self.ld_c_a(),
            0x50 => self.ld_d_b(),
            0x51 => self.ld_d_c(),
            0x52 => self.ld_d_d(),
            0x53 => self.ld_d_e(),
            0x54 => self.ld_d_h(),
            0x55 => self.ld_d_l(),
            0x56 => self.ld_d_hl(memory),
            0x57 => self.ld_d_a(),
            0x58 => self.ld_e_b(),
            0x59 => self.ld_e_c(),
            0x5A => self.ld_e_d(),
            0x5B => self.ld_e_e(),
            0x5C => self.ld_e_h(),
            0x5D => self.ld_e_l(),
            0x5E => self.ld_e_hl(memory),
            0x5F => self.ld_e_a(),
            0x60 => self.ld_h_b(),
            0x61 => self.ld_h_c(),
            0x62 => self.ld_h_d(),
            0x63 => self.ld_h_e(),
            0x64 => self.ld_h_h(),
            0x65 => self.ld_h_l(),
            0x66 => self.ld_h_hl(memory),
            0x67 => self.ld_h_a(),
            0x68 => self.ld_l_b(),
            0x69 => self.ld_l_c(),
            0x6A => self.ld_l_d(),
            0x6B => self.ld_l_e(),
            0x6C => self.ld_l_h(),
            0x6D => self.ld_l_l(),
            0x6E => self.ld_l_hl(memory),
            0x6F => self.ld_l_a(),
            0x70 => self.ld_hl_b(memory),
            0x71 => self.ld_hl_c(memory),
            0x72 => self.ld_hl_d(memory),
            0x73 => self.ld_hl_e(memory),
            0x74 => self.ld_hl_h(memory),
            0x75 => self.ld_hl_l(memory),
            0x76 => self.halt(),
            0x77 => self.ld_hl_a(memory),
            0x78 => self.ld_a_b(),
            0x79 => self.ld_a_c(),
            0x7A => self.ld_a_d(),
            0x7B => self.ld_a_e(),
            0x7C => self.ld_a_h(),
            0x7D => self.ld_a_l(),
            0x7E => self.ld_a_hl(memory),
            _ => self.ld_a_a(),
        }
    }
}

} // verus!
