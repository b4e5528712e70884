use vstd::prelude::*;
use crate::cpu::Cpu;
use crate::cpu::semantics::{can_execute_cb, executes_cb, cb_timing};
use crate::mmu::memory::Memory;

verus! {

impl Cpu {
    /// Decimal adjustment of the accumulator after a BCD addition or subtraction.
    pub(crate) fn daa(&mut self)
        ensures
            *final(self) == old(self).after_daa(),
    {
        let f = self.registers.f;
        let mut result: i32 = self.registers.a as i32;
        if !f.negative {
            if f.half_carry || result % 16 > 9 {
                result = result + 0x06;
            }
            if f.full_carry || result > 0x9F {
                result = result + 0x60;
            }
        } else {
            if f.half_carry {
                result = result - 6;
                if result < 0 {
                    result = result + 0x100;
                }
            }
            if f.full_carry {
                result = result - 0x60;
            }
        }
        self.registers.f.half_carry = false;
        self.registers.f.zero = false;
        if result >= 0x100 || result < 0 {
            self.registers.f.full_carry = true;
        }
        if result < 0 {
            result = result + 0x100;
        } else if result >= 0x100 {
            result = result - 0x100;
        }
        if result == 0 {
            self.registers.f.zero = true;
        }
        self.registers.a = result as u8;
    }

    /// Complements the accumulator.
    pub(crate) fn cpl(&mut self)
        ensures
            *final(self) == old(self).after_cpl(),
    {
        self.registers.a = !self.registers.a;
        self.registers.f.half_carry = true;
        self.registers.f.negative = true;
    }

    /// Sets the carry.
    pub(crate) fn scf(&mut self)
        ensures
            *final(self) == old(self).after_scf(),
    {
        self.registers.f.full_carry = true;
        self.registers.f.negative = false;
        self.registers.f.half_carry = false;
    }

    /// Complements the carry.
    pub(crate) fn ccf(&mut self)
        ensures
            *final(self) == old(self).after_ccf(),
    {
        self.registers.f.full_carry = !self.registers.f.full_carry;
        self.registers.f.negative = false;
        self.registers.f.half_carry = false;
    }

    /// STOP: on the color model, a prepared speed switch (bit 0 of KEY1) toggles
    /// the double speed, which bit 7 of KEY1 then reports; otherwise the processor
    /// stops until a selected joypad line goes low.
    pub(crate) fn stop(&mut self, memory: &mut Memory)
        requires
            old(memory)@.wf(),
        ensures
            (*final(self), final(memory)@) == old(self).after_stop(old(memory)@),
            final(memory)@.wf(),
    {
        if self.is_cgb {
            let current_key1 = memory.load(0xFF4D);
            if current_key1 % 2 == 1 {
                self.cgb_speed = !self.cgb_speed;
                if self.cgb_speed {
                    memory.store(0xFF4D, 0x80);
                } else {
                    memory.store(0xFF4D, 0x00);
                }
                return;
            }
        }
        self.stopped = true;
    }

    /// HALT: stops until an interrupt; when an EI or DI is pending, it takes effect
    /// at once instead and the HALT is fetched again.
    pub(crate) fn halt(&mut self)
        ensures
            *final(self) == old(self).after_halt(),
    {
        if self.pending_enable_interrupts != -1 {
            self.interrupt_enabled = true;
            self.pending_enable_interrupts = -1;
            self.registers.pc = self.registers.pc.wrapping_sub(1);
        } else if self.pending_disable_interrupts != -1 {
            self.interrupt_enabled = false;
            self.pending_enable_interrupts = -1;
            self.registers.pc = self.registers.pc.wrapping_sub(1);
        } else {
            self.halted = true;
        }
    }

    /// DI: interrupts are disabled after the next instruction; a pending EI is dropped.
    pub(crate) fn di(&mut self)
        ensures
            *final(self) == old(self).after_di(),
    {
        self.pending_enable_interrupts = -1;
        if self.pending_disable_interrupts == -1 {
            self.pending_disable_interrupts = 1;
        }
    }

    /// EI: interrupts are enabled after the next instruction; a pending DI is dropped.
    pub(crate) fn ei(&mut self)
        ensures
            *final(self) == old(self).after_ei(),
    {
        self.pending_disable_interrupts = -1;
        if self.pending_enable_interrupts == -1 {
            self.pending_enable_interrupts = 1;
        }
    }

    /// An opcode the processor does not define: nothing happens.
    pub(crate) fn undefined(&mut self, opcode: u8)
        ensures
            *final(self) == *old(self),
    {
    }

    /// The cycles that a prefixed opcode takes.
    pub(crate) fn cb_instruction_timing(opcode: u8) -> (r: i32)
        ensures
            r == cb_timing(opcode),
    {
        if opcode % 8 != 6 {
            8
        } else if 0x40 <= opcode && opcode < 0x80 {
            12
        } else {
            16
        }
    }

    /// A prefixed opcode: sets the cycles it takes, then executes it.
    pub(crate) fn ext_ops(&mut self, opcode: u8, memory: &mut Memory)
        requires
            old(memory)@.wf(),
            can_execute_cb(old(self).with_cycle(cb_timing(opcode)), old(memory)@, opcode),
        ensures
            executes_cb(old(self).with_cycle(cb_timing(opcode)), old(memory)@, opcode, *final(self), final(memory)@),
            final(memory)@.wf(),
    {
        self.instruction_cycle = Cpu::cb_instruction_timing(opcode);
        if opcode < 0x40 {
            self.ext_shift(opcode, memory);
        } else if opcode < 0x80 {
            self.ext_bit(opcode, memory);
        } else if opcode < 0xC0 {
            self.ext_res(opcode, memory);
        } else {
            self.ext_set(opcode, memory);
        }
    }
}

} // verus!
