pub mod alu;
pub mod flag;
pub mod function;
pub mod registers;
pub mod semantics;
pub mod stack;
mod helpers;
mod misc;
mod ops_alu;
mod ops_cb;
mod ops_high;
mod ops_load;
mod ops_low;

use vstd::prelude::*;
use crate::cpu::flag::Flag;
use crate::cpu::registers::Registers;
use crate::cpu::semantics::{
    can_execute, can_step, executes, fetched, instruction_timings, pending_ticked, pushes, reported_cycles,
    steps, undefined_opcode, woken,
};
use crate::mmu::memory::{Memory, readable};

verus! {

/// The processor: its registers, the halt and stop states, the interrupt master enable with
/// the countdowns of a pending EI or DI, the cycles of the current instruction, and
/// the model and speed of the color model.
pub struct Cpu {
    pub registers: Registers,
    pub halted: bool,
    /// Set by STOP: no instruction is fetched until a selected joypad line goes low.
    pub stopped: bool,
    pub interrupt_enabled: bool,
    /// -1 when no EI is pending, else the instructions left before it takes effect.
    pub pending_enable_interrupts: i32,
    /// -1 when no DI is pending, else the instructions left before it takes effect.
    pub pending_disable_interrupts: i32,
    pub instruction_cycle: i32,
    pub is_cgb: bool,
    pub cgb_speed: bool,
}

impl Default for Cpu {
    /// A processor with every register cleared, running, with interrupts disabled
    /// and none pending.
    fn default() -> (r: Cpu)
        ensures
            r.registers == Registers::cleared(),
            !r.halted && !r.stopped && !r.interrupt_enabled && !r.is_cgb && !r.cgb_speed,
            r.pending_enable_interrupts == -1 && r.pending_disable_interrupts == -1,
            r.instruction_cycle == 0,
    {
        Cpu {
            registers: Registers::new(),
            halted: false,
            stopped: false,
            interrupt_enabled: false,
            pending_enable_interrupts: -1,
            pending_disable_interrupts: -1,
            instruction_cycle: 0,
            is_cgb: false,
            cgb_speed: false,
        }
    }
}

impl Cpu {
    /// The processor as the boot program leaves it (see `new`).
    pub open spec fn booted(self, is_cgb: bool) -> bool {
        &&& self.registers.af() == (if is_cgb { 0x11B0u16 } else { 0x01B0u16 })
        &&& self.registers.bc() == 0x0013
        &&& self.registers.de() == 0x00D8
        &&& self.registers.hl() == 0x014D
        &&& self.registers.pc == 0x0100
        &&& self.registers.sp == 0xFFFE
        &&& !self.halted && !self.stopped && !self.interrupt_enabled && !self.cgb_speed
        &&& self.pending_enable_interrupts == -1 && self.pending_disable_interrupts == -1
        &&& self.instruction_cycle == 0
        &&& self.is_cgb == is_cgb
    }

    /// The processor as the boot program leaves it: AF = 0x01B0 (0x11B0 on the color
    /// model), BC = 0x0013, DE = 0x00D8, HL = 0x014D, SP = 0xFFFE, PC = 0x0100.
    pub fn new(is_cgb: bool) -> (r: Cpu)
        ensures
            r.registers.af() == (if is_cgb { 0x11B0u16 } else { 0x01B0u16 }),
            r.registers.bc() == 0x0013,
            r.registers.de() == 0x00D8,
            r.registers.hl() == 0x014D,
            r.registers.pc == 0x0100,
            r.registers.sp == 0xFFFE,
            !r.halted && !r.stopped && !r.interrupt_enabled && !r.cgb_speed,
            r.pending_enable_interrupts == -1 && r.pending_disable_interrupts == -1,
            r.instruction_cycle == 0,
            r.is_cgb == is_cgb,
            r.booted(is_cgb),
    {
        let mut registers = Registers::new();
        if is_cgb {
            registers.set_af(0x11B0);
        } else {
            registers.set_af(0x01B0);
        }
        registers.set_bc(0x0013);
        registers.set_de(0x00D8);
        registers.set_hl(0x014D);
        registers.pc = 0x0100;
        registers.sp = 0xFFFE;
        assert(0x11B0u16 & 0xFFF7 == 0x11B0 && 0x01B0u16 & 0xFFF7 == 0x01B0) by (bit_vector);
        Cpu {
            registers,
            halted: false,
            stopped: false,
            interrupt_enabled: false,
            pending_enable_interrupts: -1,
            pending_disable_interrupts: -1,
            instruction_cycle: 0,
            is_cgb,
            cgb_speed: false,
        }
    }

    pub fn unhalt(&mut self)
        ensures
            *final(self) == (Cpu { halted: false, ..*old(self) }),
    {
        self.halted = false;
    }

    pub fn are_interrupts_enabled(&self) -> (r: bool)
        ensures
            r == self.interrupt_enabled,
    {
        self.interrupt_enabled
    }

    pub fn disable_interrupts(&mut self)
        ensures
            *final(self) == (Cpu { interrupt_enabled: false, ..*old(self) }),
    {
        self.interrupt_enabled = false;
    }

    /// The cycles that an unprefixed opcode takes when no branch is taken.
    fn instruction_timing(opcode: u8) -> (r: i32)
        ensures
            r == instruction_timings()[opcode as int],
    {
        let table: [i32; 256] = [
            4, 12, 8, 8, 4, 4, 8, 4, 20, 8, 8, 8, 4, 4, 8, 4,
            4, 12, 8, 8, 4, 4, 8, 4, 12, 8, 8, 8, 4, 4, 8, 4,
            8, 12, 8, 8, 4, 4, 8, 4, 8, 8, 8, 8, 4, 4, 8, 4,
            8, 12, 8, 8, 12, 12, 12, 4, 8, 8, 8, 8, 4, 4, 8, 4,
            4, 4, 4, 4, 4, 4, 8, 4, 4, 4, 4, 4, 4, 4, 8, 4,
            4, 4, 4, 4, 4, 4, 8, 4, 4, 4, 4, 4, 4, 4, 8, 4,
            4, 4, 4, 4, 4, 4, 8, 4, 4, 4, 4, 4, 4, 4, 8, 4,
            8, 8, 8, 8, 8, 8, 4, 8, 4, 4, 4, 4, 4, 4, 8, 4,
            4, 4, 4, 4, 4, 4, 8, 4, 4, 4, 4, 4, 4, 4, 8, 4,
            4, 4, 4, 4, 4, 4, 8, 4, 4, 4, 4, 4, 4, 4, 8, 4,
            4, 4, 4, 4, 4, 4, 8, 4, 4, 4, 4, 4, 4, 4, 8, 4,
            4, 4, 4, 4, 4, 4, 8, 4, 4, 4, 4, 4, 4, 4, 8, 4,
            8, 12, 12, 16, 12, 16, 8, 16, 8, 16, 12, 4, 12, 24, 8, 16,
            8, 12, 12, 0, 12, 16, 8, 16, 8, 16, 12, 0, 12, 0, 8, 16,
            12, 12, 8, 0, 0, 16, 8, 16, 16, 4, 16, 0, 0, 0, 8, 16,
            12, 12, 8, 4, 0, 16, 8, 16, 12, 8, 16, 4, 0, 0, 8, 16,
        ];
        proof {
            reveal(instruction_timings);
        }
        assert(table@ =~= instruction_timings());
        table[opcode as usize]
    }

    /// Counts a pending EI or DI down by one instruction.
    fn tick_pending(&mut self)
        requires
            old(self).pending_enable_interrupts > i32::MIN,
            old(self).pending_disable_interrupts > i32::MIN,
        ensures
            *final(self) == pending_ticked(*old(self)),
    {
        if self.pending_enable_interrupts != -1 {
            let pending_enable_interrupts = self.pending_enable_interrupts;
            self.pending_enable_interrupts -= 1;
            if pending_enable_interrupts == 0 {
                self.pending_enable_interrupts = -1;
                self.interrupt_enabled = true;
            }
        }
        if self.pending_disable_interrupts != -1 {
            let pending_disable_interrupts = self.pending_disable_interrupts;
            self.pending_disable_interrupts -= 1;
            if pending_disable_interrupts == 0 {
                self.pending_disable_interrupts = -1;
                self.interrupt_enabled = false;
            }
        }
    }

    /// Runs one instruction, or spends four cycles while halted or stopped, and
    /// returns the cycles taken (halved at double speed). A stopped processor first
    /// wakes when a selected joypad line reads low.
    pub fn step(&mut self, memory: &mut Memory) -> (r: i32)
        requires
            old(memory)@.wf(),
            old(self).pending_enable_interrupts > i32::MIN,
            old(self).pending_disable_interrupts > i32::MIN,
            can_step(*old(self), old(memory)@),
        ensures
            steps(*old(self), old(memory)@, *final(self), final(memory)@),
            r == reported_cycles(*final(self)),
            final(memory)@.wf(),
    {
        self.instruction_cycle = 0;
        if self.stopped && memory.joypad_lines() % 16 != 15 {
            self.stopped = false;
        }
        assert(*self == Cpu { instruction_cycle: 0, ..woken(*old(self), memory@) });
        if !self.halted && !self.stopped {
            self.tick_pending();
            let ghost c0 = woken(*old(self), memory@);
            let opcode = self.get_n(memory);
            self.instruction_cycle = self.instruction_cycle + Cpu::instruction_timing(opcode);
            assert(*self == fetched(c0, memory@));
            self.execute_opcode(opcode, memory);
        } else {
            self.instruction_cycle = 4;
        }
        if self.halted {
            self.instruction_cycle = 4;
        }
        if self.cgb_speed {
            self.instruction_cycle / 2
        } else {
            self.instruction_cycle
        }
    }

    /// Executes `opcode`, whose operands follow at the program counter; the opcodes
    /// the processor does not define are not executed.
    pub fn execute_opcode(&mut self, opcode: u8, memory: &mut Memory)
        requires
            old(memory)@.wf(),
            !undefined_opcode(opcode),
            can_execute(*old(self), old(memory)@, opcode),
        ensures
            executes(*old(self), old(memory)@, opcode, *final(self), final(memory)@),
            final(memory)@.wf(),
    {
        if opcode < 0x40 {
            self.execute_low(opcode, memory);
        } else if opcode < 0x80 {
            self.execute_load(opcode, memory);
        } else if opcode < 0xC0 {
            self.execute_alu(opcode, memory);
        } else {
            self.execute_high(opcode, memory);
        }
    }

    /// Calls the interrupt handler at 0x40 (vertical blank).
    pub fn rst_40(&mut self, memory: &mut Memory)
        requires
            old(memory)@.wf(),
            old(memory)@.word_write_ok(old(self).pushed_sp(), old(self).registers.pc),
        ensures
            pushes(*old(self), old(memory)@, old(self).registers.pc, final(memory)@),
            *final(self) == old(self).with_sp(old(self).pushed_sp()).with_pc(0x40),
            final(memory)@.wf(),
    {
        self.rst_n(0x40, memory);
    }

    /// Calls the interrupt handler at 0x48 (LCD status).
    pub fn rst_48(&mut self, memory: &mut Memory)
        requires
            old(memory)@.wf(),
            old(memory)@.word_write_ok(old(self).pushed_sp(), old(self).registers.pc),
        ensures
            pushes(*old(self), old(memory)@, old(self).registers.pc, final(memory)@),
            *final(self) == old(self).with_sp(old(self).pushed_sp()).with_pc(0x48),
            final(memory)@.wf(),
    {
        self.rst_n(0x48, memory);
    }

    /// Calls the interrupt handler at 0x50 (timer).
    pub fn rst_50(&mut self, memory: &mut Memory)
        requires
            old(memory)@.wf(),
            old(memory)@.word_write_ok(old(self).pushed_sp(), old(self).registers.pc),
        ensures
            pushes(*old(self), old(memory)@, old(self).registers.pc, final(memory)@),
            *final(self) == old(self).with_sp(old(self).pushed_sp()).with_pc(0x50),
            final(memory)@.wf(),
    {
        self.rst_n(0x50, memory);
    }

    /// Calls the interrupt handler at 0x58 (serial).
    pub fn rst_58(&mut self, memory: &mut Memory)
        requires
            old(memory)@.wf(),
            old(memory)@.word_write_ok(old(self).pushed_sp(), old(self).registers.pc),
        ensures
            pushes(*old(self), old(memory)@, old(self).registers.pc, final(memory)@),
            *final(self) == old(self).with_sp(old(self).pushed_sp()).with_pc(0x58),
            final(memory)@.wf(),
    {
        self.rst_n(0x58, memory);
    }

    /// Calls the interrupt handler at 0x60 (joypad).
    pub fn rst_60(&mut self, memory: &mut Memory)
        requires
            old(memory)@.wf(),
            old(memory)@.word_write_ok(old(self).pushed_sp(), old(self).registers.pc),
        ensures
            pushes(*old(self), old(memory)@, old(self).registers.pc, final(memory)@),
            *final(self) == old(self).with_sp(old(self).pushed_sp()).with_pc(0x60),
            final(memory)@.wf(),
    {
        self.rst_n(0x60, memory);
    }
}

} // verus!
