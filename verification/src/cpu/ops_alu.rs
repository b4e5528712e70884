use vstd::prelude::*;
use crate::bit_utils::{with_bit_spec, without_bit_spec};
use crate::cpu::Cpu;
use crate::cpu::alu::{wrap8, wrap16, inc_flags, dec_flags, bit_flags};
use crate::cpu::flag::flag_of;
use crate::cpu::registers::{Registers, high_byte, low_byte};
use crate::cpu::semantics::{stores, pushes, can_pop, can_execute, can_execute_cb, executes, executes_cb};
use crate::mmu::memory::{Memory, readable, writes_word};

verus! {

impl Cpu {
    pub(crate) fn add_a_b(&mut self)
        ensures
            *final(self) == old(self).after_alu(0, old(self).reg8(0)),
    {
        self.alu_n(0, self.registers.b);
    }

    pub(crate) fn add_a_c(&mut self)
        ensures
            *final(self) == old(self).after_alu(0, old(self).reg8(1)),
    {
        self.alu_n(0, self.registers.c);
    }

    pub(crate) fn add_a_d(&mut self)
        ensures
            *final(self) == old(self).after_alu(0, old(self).reg8(2)),
    {
        self.alu_n(0, self.registers.d);
    }

    pub(crate) fn add_a_e(&mut self)
        ensures
            *final(self) == old(self).after_alu(0, old(self).reg8(3)),
    {
        self.alu_n(0, self.registers.e);
    }

    pub(crate) fn add_a_h(&mut self)
        ensures
            *final(self) == old(self).after_alu(0, old(self).reg8(4)),
    {
        self.alu_n(0, self.registers.h);
    }

    pub(crate) fn add_a_l(&mut self)
        ensures
            *final(self) == old(self).after_alu(0, old(self).reg8(5)),
    {
        self.alu_n(0, self.registers.l);
    }

    pub(crate) fn add_hl(&mut self, memory: &Memory)
        requires
            memory@.wf(),
            readable(old(self).hl()),
        ensures
            *final(self) == old(self).after_alu(0, memory@.read(old(self).hl())),
    {
        self.alu_hl(0, memory);
    }

    pub(crate) fn add_a_a(&mut self)
        ensures
            *final(self) == old(self).after_alu(0, old(self).reg8(7)),
    {
        self.alu_n(0, self.registers.a);
    }

    pub(crate) fn adc_a_b(&mut self)
        ensures
            *final(self) == old(self).after_alu(1, old(self).reg8(0)),
    {
        self.alu_n(1, self.registers.b);
    }

    pub(crate) fn adc_a_c(&mut self)
        ensures
            *final(self) == old(self).after_alu(1, old(self).reg8(1)),
    {
        self.alu_n(1, self.registers.c);
    }

    pub(crate) fn adc_a_d(&mut self)
        ensures
            *final(self) == old(self).after_alu(1, old(self).reg8(2)),
    {
        self.alu_n(1, self.registers.d);
    }

    pub(crate) fn adc_a_e(&mut self)
        ensures
            *final(self) == old(self).after_alu(1, old(self).reg8(3)),
    {
        self.alu_n(1, self.registers.e);
    }

    pub(crate) fn adc_a_h(&mut self)
        ensures
            *final(self) == old(self).after_alu(1, old(self).reg8(4)),
    {
        self.alu_n(1, self.registers.h);
    }

    pub(crate) fn adc_a_l(&mut self)
        ensures
            *final(self) == old(self).after_alu(1, old(self).reg8(5)),
    {
        self.alu_n(1, self.registers.l);
    }

    pub(crate) fn adc_hl(&mut self, memory: &Memory)
        requires
            memory@.wf(),
            readable(old(self).hl()),
        ensures
            *final(self) == old(self).after_alu(1, memory@.read(old(self).hl())),
    {
        self.alu_hl(1, memory);
    }

    pub(crate) fn adc_a_a(&mut self)
        ensures
            *final(self) == old(self).after_alu(1, old(self).reg8(7)),
    {
        self.alu_n(1, self.registers.a);
    }

    pub(crate) fn sub_a_b(&mut self)
        ensures
            *final(self) == old(self).after_alu(2, old(self).reg8(0)),
    {
        self.alu_n(2, self.registers.b);
    }

    pub(crate) fn sub_a_c(&mut self)
        ensures
            *final(self) == old(self).after_alu(2, old(self).reg8(1)),
    {
        self.alu_n(2, self.registers.c);
    }

    pub(crate) fn sub_a_d(&mut self)
        ensures
            *final(self) == old(self).after_alu(2, old(self).reg8(2)),
    {
        self.alu_n(2, self.registers.d);
    }

    pub(crate) fn sub_a_e(&mut self)
        ensures
            *final(self) == old(self).after_alu(2, old(self).reg8(3)),
    {
        self.alu_n(2, self.registers.e);
    }

    pub(crate) fn sub_a_h(&mut self)
        ensures
            *final(self) == old(self).after_alu(2, old(self).reg8(4)),
    {
        self.alu_n(2, self.registers.h);
    }

    pub(crate) fn sub_a_l(&mut self)
        ensures
            *final(self) == old(self).after_alu(2, old(self).reg8(5)),
    {
        self.alu_n(2, self.registers.l);
    }

    pub(crate) fn sub_hl(&mut self, memory: &Memory)
        requires
            memory@.wf(),
            readable(old(self).hl()),
        ensures
            *final(self) == old(self).after_alu(2, memory@.read(old(self).hl())),
    {
        self.alu_hl(2, memory);
    }

    pub(crate) fn sub_a_a(&mut self)
        ensures
            *final(self) == old(self).after_alu(2, old(self).reg8(7)),
    {
        self.alu_n(2, self.registers.a);
    }

    pub(crate) fn sbc_a_b(&mut self)
        ensures
            *final(self) == old(self).after_alu(3, old(self).reg8(0)),
    {
        self.alu_n(3, self.registers.b);
    }

    pub(crate) fn sbc_a_c(&mut self)
        ensures
            *final(self) == old(self).after_alu(3, old(self).reg8(1)),
    {
        self.alu_n(3, self.registers.c);
    }

    pub(crate) fn sbc_a_d(&mut self)
        ensures
            *final(self) == old(self).after_alu(3, old(self).reg8(2)),
    {
        self.alu_n(3, self.registers.d);
    }

    pub(crate) fn sbc_a_e(&mut self)
        ensures
            *final(self) == old(self).after_alu(3, old(self).reg8(3)),
    {
        self.alu_n(3, self.registers.e);
    }

    pub(crate) fn sbc_a_h(&mut self)
        ensures
            *final(self) == old(self).after_alu(3, old(self).reg8(4)),
    {
        self.alu_n(3, self.registers.h);
    }

    pub(crate) fn sbc_a_l(&mut self)
        ensures
            *final(self) == old(self).after_alu(3, old(self).reg8(5)),
    {
        self.alu_n(3, self.registers.l);
    }

    pub(crate) fn sbc_hl(&mut self, memory: &Memory)
        requires
            memory@.wf(),
            readable(old(self).hl()),
        ensures
            *final(self) == old(self).after_alu(3, memory@.read(old(self).hl())),
    {
        self.alu_hl(3, memory);
    }

    pub(crate) fn sbc_a_a(&mut self)
        ensures
            *final(self) == old(self).after_alu(3, old(self).reg8(7)),
    {
        self.alu_n(3, self.registers.a);
    }

    pub(crate) fn and_b(&mut self)
        ensures
            *final(self) == old(self).after_alu(4, old(self).reg8(0)),
    {
        self.alu_n(4, self.registers.b);
    }

    pub(crate) fn and_c(&mut self)
        ensures
            *final(self) == old(self).after_alu(4, old(self).reg8(1)),
    {
        self.alu_n(4, self.registers.c);
    }

    pub(crate) fn and_d(&mut self)
        ensures
            *final(self) == old(self).after_alu(4, old(self).reg8(2)),
    {
        self.alu_n(4, self.registers.d);
    }

    pub(crate) fn and_e(&mut self)
        ensures
            *final(self) == old(self).after_alu(4, old(self).reg8(3)),
    {
        self.alu_n(4, self.registers.e);
    }

    pub(crate) fn and_h(&mut self)
        ensures
            *final(self) == old(self).after_alu(4, old(self).reg8(4)),
    {
        self.alu_n(4, self.registers.h);
    }

    pub(crate) fn and_l(&mut self)
        ensures
            *final(self) == old(self).after_alu(4, old(self).reg8(5)),
    {
        self.alu_n(4, self.registers.l);
    }

    pub(crate) fn and_hl(&mut self, memory: &Memory)
        requires
            memory@.wf(),
            readable(old(self).hl()),
        ensures
            *final(self) == old(self).after_alu(4, memory@.read(old(self).hl())),
    {
        self.alu_hl(4, memory);
    }

    pub(crate) fn and_a(&mut self)
        ensures
            *final(self) == old(self).after_alu(4, old(self).reg8(7)),
    {
        self.alu_n(4, self.registers.a);
    }

    pub(crate) fn xor_b(&mut self)
        ensures
            *final(self) == old(self).after_alu(5, old(self).reg8(0)),
    {
        self.alu_n(5, self.registers.b);
    }

    pub(crate) fn xor_c(&mut self)
        ensures
            *final(self) == old(self).after_alu(5, old(self).reg8(1)),
    {
        self.alu_n(5, self.registers.c);
    }

    pub(crate) fn xor_d(&mut self)
        ensures
            *final(self) == old(self).after_alu(5, old(self).reg8(2)),
    {
        self.alu_n(5, self.registers.d);
    }

    pub(crate) fn xor_e(&mut self)
        ensures
            *final(self) == old(self).after_alu(5, old(self).reg8(3)),
    {
        self.alu_n(5, self.registers.e);
    }

    pub(crate) fn xor_h(&mut self)
        ensures
            *final(self) == old(self).after_alu(5, old(self).reg8(4)),
    {
        self.alu_n(5, self.registers.h);
    }

    pub(crate) fn xor_l(&mut self)
        ensures
            *final(self) == old(self).after_alu(5, old(self).reg8(5)),
    {
        self.alu_n(5, self.registers.l);
    }

    pub(crate) fn xor_hl(&mut self, memory: &Memory)
        requires
            memory@.wf(),
            readable(old(self).hl()),
        ensures
            *final(self) == old(self).after_alu(5, memory@.read(old(self).hl())),
    {
        self.alu_hl(5, memory);
    }

    pub(crate) fn xor_a(&mut self)
        ensures
            *final(self) == old(self).after_alu(5, old(self).reg8(7)),
    {
        self.alu_n(5, self.registers.a);
    }

    pub(crate) fn or_b(&mut self)
        ensures
            *final(self) == old(self).after_alu(6, old(self).reg8(0)),
    {
        self.alu_n(6, self.registers.b);
    }

    pub(crate) fn or_c(&mut self)
        ensures
            *final(self) == old(self).after_alu(6, old(self).reg8(1)),
    {
        self.alu_n(6, self.registers.c);
    }

    pub(crate) fn or_d(&mut self)
        ensures
            *final(self) == old(self).after_alu(6, old(self).reg8(2)),
    {
        self.alu_n(6, self.registers.d);
    }

    pub(crate) fn or_e(&mut self)
        ensures
            *final(self) == old(self).after_alu(6, old(self).reg8(3)),
    {
        self.alu_n(6, self.registers.e);
    }

    pub(crate) fn or_h(&mut self)
        ensures
            *final(self) == old(self).after_alu(6, old(self).reg8(4)),
    {
        self.alu_n(6, self.registers.h);
    }

    pub(crate) fn or_l(&mut self)
        ensures
            *final(self) == old(self).after_alu(6, old(self).reg8(5)),
    {
        self.alu_n(6, self.registers.l);
    }

    pub(crate) fn or_hl(&mut self, memory: &Memory)
        requires
            memory@.wf(),
            readable(old(self).hl()),
        ensures
            *final(self) == old(self).after_alu(6, memory@.read(old(self).hl())),
    {
        self.alu_hl(6, memory);
    }

    pub(crate) fn or_a(&mut self)
        ensures
            *final(self) == old(self).after_alu(6, old(self).reg8(7)),
    {
        self.alu_n(6, self.registers.a);
    }

    pub(crate) fn cp_b(&mut self)
        ensures
            *final(self) == old(self).after_alu(7, old(self).reg8(0)),
    {
        self.alu_n(7, self.registers.b);
    }

    pub(crate) fn cp_c(&mut self)
        ensures
            *final(self) == old(self).after_alu(7, old(self).reg8(1)),
    {
        self.alu_n(7, self.registers.c);
    }

    pub(crate) fn cp_d(&mut self)
        ensures
            *final(self) == old(self).after_alu(7, old(self).reg8(2)),
    {
        self.alu_n(7, self.registers.d);
    }

    pub(crate) fn cp_e(&mut self)
        ensures
            *final(self) == old(self).after_alu(7, old(self).reg8(3)),
    {
        self.alu_n(7, self.registers.e);
    }

    pub(crate) fn cp_h(&mut self)
        ensures
            *final(self) == old(self).after_alu(7, old(self).reg8(4)),
    {
        self.alu_n(7, self.registers.h);
    }

    pub(crate) fn cp_l(&mut self)
        ensures
            *final(self) == old(self).after_alu(7, old(self).reg8(5)),
    {
        self.alu_n(7, self.registers.l);
    }

    pub(crate) fn cp_hl(&mut self, memory: &Memory)
        requires
            memory@.wf(),
            readable(old(self).hl()),
        ensures
            *final(self) == old(self).after_alu(7, memory@.read(old(self).hl())),
    {
        self.alu_hl(7, memory);
    }

    pub(crate) fn cp_a(&mut self)
        ensures
            *final(self) == old(self).after_alu(7, old(self).reg8(7)),
    {
        self.alu_n(7, self.registers.a);
    }

    /// Opcodes 0x80..=0xBF.
    #[verifier::rlimit(100)]
    #[verifier::spinoff_prover]
    pub(crate) fn execute_alu(&mut self, opcode: u8, memory: &mut Memory)
        requires
            old(memory)@.wf(),
            0x80 <= opcode <= 0xBF,
            can_execute(*old(self), old(memory)@, opcode),
        ensures
            executes(*old(self), old(memory)@, opcode, *final(self), final(memory)@),
            final(memory)@.wf(),
    {
        proof {
            reveal(executes);
            reveal(can_execute);
        }
        match opcode {
            0x80 => self.add_a_b(),
            0x81 => self.add_a_c(),
            0x82 => self.add_a_d(),
            0x83 => self.add_a_e(),
            0x84 => self.add_a_h(),
            0x85 => self.add_a_l(),
            0x86 => self.add_hl(memory),
            0x87 => self.add_a_a(),
            0x88 => self.adc_a_b(),
            0x89 => self.adc_a_c(),
            0x8A => self.adc_a_d(),
            0x8B => self.adc_a_e(),
            0x8C => self.adc_a_h(),
            0x8D => self.adc_a_l(),
            0x8E => self.adc_hl(memory),
            0x8F => self.adc_a_a(),
            0x90 => self.sub_a_b(),
            0x91 => self.sub_a_c(),
            0x92 => self.sub_a_d(),
            0x93 => self.sub_a_e(),
            0x94 => self.sub_a_h(),
            0x95 => self.sub_a_l(),
            0x96 => self.sub_hl(memory),
            0x97 => self.sub_a_a(),
            0x98 => self.sbc_a_b(),
            0x99 => self.sbc_a_c(),
            0x9A => self.sbc_a_d(),
            0x9B => self.sbc_a_e(),
            0x9C => self.sbc_a_h(),
            0x9D => self.sbc_a_l(),
            0x9E => self.sbc_hl(memory),
            0x9F => self.sbc_a_a(),
            0xA0 => self.and_b(),
            0xA1 => self.and_c(),
            0xA2 => self.and_d(),
            0xA3 => self.and_e(),
            0xA4 => self.and_h(),
            0xA5 => self.and_l(),
            0xA6 => self.and_hl(memory),
            0xA7 => self.and_a(),
            0xA8 => self.xor_b(),
            0xA9 => self.xor_c(),
            0xAA => self.xor_d(),
            0xAB => self.xor_e(),
            0xAC => self.xor_h(),
            0xAD => self.xor_l(),
            0xAE => self.xor_hl(memory),
            0xAF => self.xor_a(),
            0xB0 => self.or_b(),
            0xB1 => self.or_c(),
            0xB2 => self.or_d(),
            0xB3 => self.or_e(),
            0xB4 => self.or_h(),
            0xB5 => self.or_l(),
            0xB6 => self.or_hl(memory),
            0xB7 => self.or_a(),
            0xB8 => self.cp_b(),
            0xB9 => self.cp_c(),
            0xBA => self.cp_d(),
            0xBB => self.cp_e(),
            0xBC => self.cp_h(),
            0xBD => self.cp_l(),
            0xBE => self.cp_hl(memory),
            _ => self.cp_a(),
        }
    }
}

} // verus!
