use vstd::prelude::*;
use crate::bit_utils::{with_bit_spec, without_bit_spec};
use crate::cpu::Cpu;
use crate::cpu::alu::{wrap8, wrap16, inc_flags, dec_flags, bit_flags};
use crate::cpu::flag::flag_of;
use crate::cpu::registers::{Registers, high_byte, low_byte};
use crate::cpu::semantics::{stores, pushes, can_pop, can_execute, can_execute_cb, executes, executes_cb};
use crate::mmu::memory::{Memory, readable, writes_word};

verus! {

impl Cpu {
    pub(crate) fn nop(&mut self)
        ensures
            *final(self) == *old(self),
    {
    }

    pub(crate) fn ld_bc_nn(&mut self, nn: u16)
        ensures
            *final(self) == old(self).with_pair16(0, nn),
    {
        let bc = self.ld_rr_nn(nn);
        self.registers.set_bc(bc);
    }

    pub(crate) fn inc_bc(&mut self)
        ensures
            *final(self) == old(self).with_pair16(0, wrap16(old(self).pair16(0) + 1)),
    {
        let bc = self.inc_rr(self.registers.get_bc());
        self.registers.set_bc(bc);
    }

    pub(crate) fn dec_bc(&mut self)
        ensures
            *final(self) == old(self).with_pair16(0, wrap16(old(self).pair16(0) - 1)),
    {
        let bc = self.dec_rr(self.registers.get_bc());
        self.registers.set_bc(bc);
    }

    pub(crate) fn add_hl_bc(&mut self)
        ensures
            *final(self) == old(self).after_add_hl(old(self).pair16(0)),
    {
        self.add_hl_rr(self.registers.get_bc());
    }

    pub(crate) fn ld_de_nn(&mut self, nn: u16)
        ensures
            *final(self) == old(self).with_pair16(1, nn),
    {
        let de = self.ld_rr_nn(nn);
        self.registers.set_de(de);
    }

    pub(crate) fn inc_de(&mut self)
        ensures
            *final(self) == old(self).with_pair16(1, wrap16(old(self).pair16(1) + 1)),
    {
        let de = self.inc_rr(self.registers.get_de());
        self.registers.set_de(de);
    }

    pub(crate) fn dec_de(&mut self)
        ensures
            *final(self) == old(self).with_pair16(1, wrap16(old(self).pair16(1) - 1)),
    {
        let de = self.dec_rr(self.registers.get_de());
        self.registers.set_de(de);
    }

    pub(crate) fn add_hl_de(&mut self)
        ensures
            *final(self) == old(self).after_add_hl(old(self).pair16(1)),
    {
        self.add_hl_rr(self.registers.get_de());
    }

    pub(crate) fn ld_hl_nn(&mut self, nn: u16)
        ensures
            *final(self) == old(self).with_pair16(2, nn),
    {
        let hl = self.ld_rr_nn(nn);
        self.registers.set_hl(hl);
    }

    pub(crate) fn inc_hl(&mut self)
        ensures
            *final(self) == old(self).with_pair16(2, wrap16(old(self).pair16(2) + 1)),
    {
        let hl = self.inc_rr(self.registers.get_hl());
        self.registers.set_hl(hl);
    }

    pub(crate) fn dec_hl(&mut self)
        ensures
            *final(self) == old(self).with_pair16(2, wrap16(old(self).pair16(2) - 1)),
    {
        let hl = self.dec_rr(self.registers.get_hl());
        self.registers.set_hl(hl);
    }

    pub(crate) fn add_hl_hl(&mut self)
        ensures
            *final(self) == old(self).after_add_hl(old(self).pair16(2)),
    {
        let hl = self.registers.get_hl();
        self.add_hl_rr(hl);
    }

    pub(crate) fn ld_sp_nn(&mut self, nn: u16)
        ensures
            *final(self) == old(self).with_pair16(3, nn),
    {
        self.registers.sp = self.ld_rr_nn(nn);
    }

    pub(crate) fn inc_sp(&mut self)
        ensures
            *final(self) == old(self).with_pair16(3, wrap16(old(self).pair16(3) + 1)),
    {
        self.registers.sp = self.inc_rr(self.registers.sp);
    }

    pub(crate) fn dec_sp(&mut self)
        ensures
            *final(self) == old(self).with_pair16(3, wrap16(old(self).pair16(3) - 1)),
    {
        self.registers.sp = self.dec_rr(self.registers.sp);
    }

    pub(crate) fn add_hl_sp(&mut self)
        ensures
            *final(self) == old(self).after_add_hl(old(self).pair16(3)),
    {
        self.add_hl_rr(self.registers.sp);
    }

    pub(crate) fn ld_bc_a(&mut self, memory: &mut Memory)
        requires
            old(memory)@.wf(),
            old(memory)@.write_ok(old(self).pair16(0), old(self).registers.a),
        ensures
            stores(old(memory)@, final(memory)@, old(self).pair16(0), old(self).registers.a, *old(self), *final(self)),
            final(memory)@.wf(),
    {
        let bc = self.registers.get_bc();
        self.ld_rr_r(bc, self.registers.a, memory);
    }

    pub(crate) fn ld_a_bc(&mut self, memory: &Memory)
        requires
            memory@.wf(),
            readable(old(self).pair16(0)),
        ensures
            *final(self) == old(self).with_reg8(7, memory@.read(old(self).pair16(0))),
    {
        self.registers.a = self.ld_r_rr(self.registers.get_bc(), memory);
    }

    pub(crate) fn ld_de_a(&mut self, memory: &mut Memory)
        requires
            old(memory)@.wf(),
            old(memory)@.write_ok(old(self).pair16(1), old(self).registers.a),
        ensures
            stores(old(memory)@, final(memory)@, old(self).pair16(1), old(self).registers.a, *old(self), *final(self)),
            final(memory)@.wf(),
    {
        let de = self.registers.get_de();
        self.ld_rr_r(de, self.registers.a, memory);
    }

    pub(crate) fn ld_a_de(&mut self, memory: &Memory)
        requires
            memory@.wf(),
            readable(old(self).pair16(1)),
        ensures
            *final(self) == old(self).with_reg8(7, memory@.read(old(self).pair16(1))),
    {
        self.registers.a = self.ld_r_rr(self.registers.get_de(), memory);
    }

    pub(crate) fn ldi_hl_a(&mut self, memory: &mut Memory)
        requires
            old(memory)@.wf(),
            old(memory)@.write_ok(old(self).hl(), old(self).registers.a),
        ensures
            stores(old(memory)@, final(memory)@, old(self).hl(), old(self).registers.a, old(self).with_pair16(2, wrap16(old(self).hl() + 1)), *final(self)),
            final(memory)@.wf(),
    {
        memory.write_byte(self.registers.get_hl(), self.registers.a);
        let hl = self.registers.get_hl().wrapping_add(1);
        self.registers.set_hl(hl);
    }

    pub(crate) fn ldd_hl_a(&mut self, memory: &mut Memory)
        requires
            old(memory)@.wf(),
            old(memory)@.write_ok(old(self).hl(), old(self).registers.a),
        ensures
            stores(old(memory)@, final(memory)@, old(self).hl(), old(self).registers.a, old(self).with_pair16(2, wrap16(old(self).hl() - 1)), *final(self)),
            final(memory)@.wf(),
    {
        memory.write_byte(self.registers.get_hl(), self.registers.a);
        let hl = self.registers.get_hl().wrapping_sub(1);
        self.registers.set_hl(hl);
    }

    pub(crate) fn ldi_a_hl(&mut self, memory: &Memory)
        requires
            memory@.wf(),
            readable(old(self).hl()),
        ensures
            *final(self) == old(self).with_reg8(7, memory@.read(old(self).hl())).with_pair16(2, wrap16(old(self).hl() + 1)),
    {
        self.registers.a = memory.read_byte(self.registers.get_hl());
        let hl = self.registers.get_hl().wrapping_add(1);
        self.registers.set_hl(hl);
    }

    pub(crate) fn ldd_a_hl(&mut self, memory: &Memory)
        requires
            memory@.wf(),
            readable(old(self).hl()),
        ensures
            *final(self) == old(self).with_reg8(7, memory@.read(old(self).hl())).with_pair16(2, wrap16(old(self).hl() - 1)),
    {
        self.registers.a = memory.read_byte(self.registers.get_hl());
        let hl = self.registers.get_hl().wrapping_sub(1);
        self.registers.set_hl(hl);
    }

    pub(crate) fn inc_b(&mut self)
        ensures
            *final(self) == old(self).after_inc(0),
    {
        self.registers.b = self.inc_r(self.registers.b);
    }

    pub(crate) fn dec_b(&mut self)
        ensures
            *final(self) == old(self).after_dec(0),
    {
        self.registers.b = self.dec_r(self.registers.b);
    }

    pub(crate) fn ld_b_n(&mut self, n: u8)
        ensures
            *final(self) == old(self).with_reg8(0, n),
    {
        self.registers.b = self.ld_r_n(n);
    }

    pub(crate) fn inc_c(&mut self)
        ensures
            *final(self) == old(self).after_inc(1),
    {
        self.registers.c = self.inc_r(self.registers.c);
    }

    pub(crate) fn dec_c(&mut self)
        ensures
            *final(self) == old(self).after_dec(1),
    {
        self.registers.c = self.dec_r(self.registers.c);
    }

    pub(crate) fn ld_c_n(&mut self, n: u8)
        ensures
            *final(self) == old(self).with_reg8(1, n),
    {
        self.registers.c = self.ld_r_n(n);
    }

    pub(crate) fn inc_d(&mut self)
        ensures
            *final(self) == old(self).after_inc(2),
    {
        self.registers.d = self.inc_r(self.registers.d);
    }

    pub(crate) fn dec_d(&mut self)
        ensures
            *final(self) == old(self).after_dec(2),
    {
        self.registers.d = self.dec_r(self.registers.d);
    }

    pub(crate) fn ld_d_n(&mut self, n: u8)
        ensures
            *final(self) == old(self).with_reg8(2, n),
    {
        self.registers.d = self.ld_r_n(n);
    }

    pub(crate) fn inc_e(&mut self)
        ensures
            *final(self) == old(self).after_inc(3),
    {
        self.registers.e = self.inc_r(self.registers.e);
    }

    pub(crate) fn dec_e(&mut self)
        ensures
            *final(self) == old(self).after_dec(3),
    {
        self.registers.e = self.dec_r(self.registers.e);
    }

    pub(crate) fn ld_e_n(&mut self, n: u8)
        ensures
            *final(self) == old(self).with_reg8(3, n),
    {
        self.registers.e = self.ld_r_n(n);
    }

    pub(crate) fn inc_h(&mut self)
        ensures
            *final(self) == old(self).after_inc(4),
    {
        self.registers.h = self.inc_r(self.registers.h);
    }

    pub(crate) fn dec_h(&mut self)
        ensures
            *final(self) == old(self).after_dec(4),
    {
        self.registers.h = self.dec_r(self.registers.h);
    }

    pub(crate) fn ld_h_n(&mut self, n: u8)
        ensures
            *final(self) == old(self).with_reg8(4, n),
    {
        self.registers.h = self.ld_r_n(n);
    }

    pub(crate) fn inc_l(&mut self)
        ensures
            *final(self) == old(self).after_inc(5),
    {
        self.registers.l = self.inc_r(self.registers.l);
    }

    pub(crate) fn dec_l(&mut self)
        ensures
            *final(self) == old(self).after_dec(5),
    {
        self.registers.l = self.dec_r(self.registers.l);
    }

    pub(crate) fn ld_l_n(&mut self, n: u8)
        ensures
            *final(self) == old(self).with_reg8(5, n),
    {
        self.registers.l = self.ld_r_n(n);
    }

    pub(crate) fn inc_a(&mut self)
        ensures
            *final(self) == old(self).after_inc(7),
    {
        self.registers.a = self.inc_r(self.registers.a);
    }

    pub(crate) fn dec_a(&mut self)
        ensures
            *final(self) == old(self).after_dec(7),
    {
        self.registers.a = self.dec_r(self.registers.a);
    }

    pub(crate) fn ld_a_n(&mut self, n: u8)
        ensures
            *final(self) == old(self).with_reg8(7, n),
    {
        self.registers.a = self.ld_r_n(n);
    }

    pub(crate) fn inc_hl_ref(&mut self, memory: &mut Memory)
        requires
            old(memory)@.wf(),
            readable(old(self).hl()),
            old(memory)@.write_ok(old(self).hl(), wrap8(old(memory)@.read(old(self).hl()) + 1)),
        ensures
            stores(old(memory)@, final(memory)@, old(self).hl(), wrap8(old(memory)@.read(old(self).hl()) + 1), old(self).with_flags(inc_flags(old(memory)@.read(old(self).hl()), old(self).registers.f)), *final(self)),
            final(memory)@.wf(),
    {
        let mut n = memory.read_byte(self.registers.get_hl());
        n = self.inc(n);
        memory.write_byte(self.registers.get_hl(), n);
    }

    pub(crate) fn dec_hl_ref(&mut self, memory: &mut Memory)
        requires
            old(memory)@.wf(),
            readable(old(self).hl()),
            old(memory)@.write_ok(old(self).hl(), wrap8(old(memory)@.read(old(self).hl()) - 1)),
        ensures
            stores(old(memory)@, final(memory)@, old(self).hl(), wrap8(old(memory)@.read(old(self).hl()) - 1), old(self).with_flags(dec_flags(old(memory)@.read(old(self).hl()), old(self).registers.f)), *final(self)),
            final(memory)@.wf(),
    {
        let mut n = memory.read_byte(self.registers.get_hl());
        n = self.dec(n);
        memory.write_byte(self.registers.get_hl(), n);
    }

    pub(crate) fn ld_hl_n(&mut self, n: u8, memory: &mut Memory)
        requires
            old(memory)@.wf(),
            old(memory)@.write_ok(old(self).hl(), n),
        ensures
            stores(old(memory)@, final(memory)@, old(self).hl(), n, *old(self), *final(self)),
            final(memory)@.wf(),
    {
        memory.write_byte(self.registers.get_hl(), n);
    }

    pub(crate) fn rlc_a(&mut self)
        ensures
            *final(self) == old(self).after_rotate_a(0),
    {
        self.registers.a = self.rlc(self.registers.a);
        self.registers.f.negative = false;
        self.registers.f.half_carry = false;
        self.registers.f.zero = false;
    }

    pub(crate) fn rrc_a(&mut self)
        ensures
            *final(self) == old(self).after_rotate_a(1),
    {
        self.registers.a = self.rrc(self.registers.a);
        self.registers.f.negative = false;
        self.registers.f.half_carry = false;
        self.registers.f.zero = false;
    }

    pub(crate) fn rl_a(&mut self)
        ensures
            *final(self) == old(self).after_rotate_a(2),
    {
        self.registers.a = self.rl(self.registers.a);
        self.registers.f.negative = false;
        self.registers.f.half_carry = false;
        self.registers.f.zero = false;
    }

    pub(crate) fn rr_a(&mut self)
        ensures
            *final(self) == old(self).after_rotate_a(3),
    {
        self.registers.a = self.rr(self.registers.a);
        self.registers.f.negative = false;
        self.registers.f.half_carry = false;
        self.registers.f.zero = false;
    }

    pub(crate) fn ld_nn_sp(&mut self, nn: u16, memory: &mut Memory)
        requires
            old(memory)@.wf(),
            old(memory)@.word_write_ok(nn, old(self).registers.sp),
        ensures
            writes_word(old(memory)@, final(memory)@, nn, old(self).registers.sp),
            *final(self) == *old(self),
            final(memory)@.wf(),
    {
        memory.write_word(nn, self.registers.sp);
    }

    pub(crate) fn jr_nz_n(&mut self, n: u8)
        ensures
            *final(self) == (if old(self).condition(0) { old(self).after_jr(n).with_cycle(12) } else { *old(self) }),
    {
        let cc = !self.registers.f.zero;
        self.jr_cc_n(cc, n);
    }

    pub(crate) fn jr_z_n(&mut self, n: u8)
        ensures
            *final(self) == (if old(self).condition(1) { old(self).after_jr(n).with_cycle(12) } else { *old(self) }),
    {
        let cc = self.registers.f.zero;
        self.jr_cc_n(cc, n);
    }

    pub(crate) fn jr_nc_n(&mut self, n: u8)
        ensures
            *final(self) == (if old(self).condition(2) { old(self).after_jr(n).with_cycle(12) } else { *old(self) }),
    {
        let cc = !self.registers.f.full_carry;
        self.jr_cc_n(cc, n);
    }

    pub(crate) fn jr_c_n(&mut self, n: u8)
        ensures
            *final(self) == (if old(self).condition(3) { old(self).after_jr(n).with_cycle(12) } else { *old(self) }),
    {
        let cc = self.registers.f.full_carry;
        self.jr_cc_n(cc, n);
    }

    /// Opcodes 0x00..=0x3F.
    #[verifier::rlimit(100)]
    #[verifier::spinoff_prover]
    pub(crate) fn execute_low(&mut self, opcode: u8, memory: &mut Memory)
        requires
            old(memory)@.wf(),
            0x00 <= opcode <= 0x3F,
            can_execute(*old(self), old(memory)@, opcode),
        ensures
            executes(*old(self), old(memory)@, opcode, *final(self), final(memory)@),
            final(memory)@.wf(),
    {
        proof {
            reveal(executes);
            reveal(can_execute);
        }
        match opcode {
            0x00 => self.nop(),
            0x01 => {
                let nn = self.get_nn(memory);
                self.ld_bc_nn(nn);
            },
            0x02 => self.ld_bc_a(memory),
            0x03 => self.inc_bc(),
            0x04 => self.inc_b(),
            0x05 => self.dec_b(),
            0x06 => {
                let n = self.get_n(memory);
                self.ld_b_n(n);
            },
            0x07 => self.rlc_a(),
            0x08 => {
                let nn = self.get_nn(memory);
                self.ld_nn_sp(nn, memory);
            },
            0x09 => self.add_hl_bc(),
            0x0A => self.ld_a_bc(memory),
            0x0B => self.dec_bc(),
            0x0C => self.inc_c(),
            0x0D => self.dec_c(),
            0x0E => {
                let n = self.get_n(memory);
                self.ld_c_n(n);
            },
            0x0F => self.rrc_a(),
            0x10 => self.stop(memory),
            0x11 => {
                let nn = self.get_nn(memory);
                self.ld_de_nn(nn);
            },
            0x12 => self.ld_de_a(memory),
            0x13 => self.inc_de(),
            0x14 => self.inc_d(),
            0x15 => self.dec_d(),
            0x16 => {
                let n = self.get_n(memory);
                self.ld_d_n(n);
            },
            0x17 => self.rl_a(),
            0x18 => {
                let n = self.get_n(memory);
                self.jr_n(n);
            },
            0x19 => self.add_hl_de(),
            0x1A => self.ld_a_de(memory),
            0x1B => self.dec_de(),
            0x1C => self.inc_e(),
            0x1D => self.dec_e(),
            0x1E => {
                let n = self.get_n(memory);
                self.ld_e_n(n);
            },
            0x1F => self.rr_a(),
            0x20 => {
                let n = self.get_n(memory);
                self.jr_nz_n(n);
            },
            0x21 => {
                let nn = self.get_nn(memory);
                self.ld_hl_nn(nn);
            },
            0x22 => self.ldi_hl_a(memory),
            0x23 => self.inc_hl(),
            0x24 => self.inc_h(),
            0x25 => self.dec_h(),
            0x26 => {
                let n = self.get_n(memory);
                self.ld_h_n(n);
            },
            0x27 => self.daa(),
            0x28 => {
                let n = self.get_n(memory);
                self.jr_z_n(n);
            },
            0x29 => self.add_hl_hl(),
            0x2A => self.ldi_a_hl(memory),
            0x2B => self.dec_hl(),
            0x2C => self.inc_l(),
            0x2D => self.dec_l(),
            0x2E => {
                let n = self.get_n(memory);
                self.ld_l_n(n);
            },
            0x2F => self.cpl(),
            0x30 => {
                let n = self.get_n(memory);
                self.jr_nc_n(n);
            },
            0x31 => {
                let nn = self.get_nn(memory);
                self.ld_sp_nn(nn);
            },
            0x32 => self.ldd_hl_a(memory),
            0x33 => self.inc_sp(),
            0x34 => self.inc_hl_ref(memory),
            0x35 => self.dec_hl_ref(memory),
            0x36 => {
                let n = self.get_n(memory);
                self.ld_hl_n(n, memory);
            },
            0x37 => self.scf(),
            0x38 => {
                let n = self.get_n(memory);
                self.jr_c_n(n);
            },
            0x39 => self.add_hl_sp(),
            0x3A => self.ldd_a_hl(memory),
            0x3B => self.dec_sp(),
            0x3C => self.inc_a(),
            0x3D => self.dec_a(),
            0x3E => {
                let n = self.get_n(memory);
                self.ld_a_n(n);
            },
            _ => self.ccf(),
        }
    }
}

} // verus!
