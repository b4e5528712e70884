use vstd::prelude::*;
use crate::mmu::interrupt::Interrupt;
use crate::mmu::memory::{Memory, MemoryView, lemma_serial_registers, writes};

verus! {

/// The serial port with no partner: a transfer on the internal clock shifts ones
/// into SB, a bit every 512 cycles, then requests the serial interrupt.
pub struct Serial {
    serial_cycles: i32,
    serial_bit: i32,
}

pub struct SerialView {
    pub serial_cycles: i32,
    pub serial_bit: i32,
}

impl View for Serial {
    type V = SerialView;

    closed spec fn view(&self) -> SerialView {
        SerialView { serial_cycles: self.serial_cycles, serial_bit: self.serial_bit }
    }
}

/// A transfer runs while SC has its start bit (7) and internal-clock bit (0) set.
pub open spec fn transfer_running(sc: u8) -> bool {
    sc >= 0x80 && sc % 2 == 1
}

/// The port and memory after `cycles` cycles: with a transfer running, the cycles
/// accumulate; a negative bit count restarts the transfer; every 512 cycles a one
/// is shifted into SB, and after eight bits SC reads 0x7F and the serial interrupt
/// is requested.
pub open spec fn serial_updated(s: SerialView, m: MemoryView, cycles: int) -> (SerialView, MemoryView) {
    let sc = m.load(0xFF02);
    if !transfer_running(sc) {
        (s, m)
    } else {
        let sum = (s.serial_cycles + cycles) as i32;
        if s.serial_bit < 0 {
            (SerialView { serial_bit: 0, serial_cycles: 0 }, m)
        } else if sum < 512 {
            (SerialView { serial_cycles: sum, ..s }, m)
        } else if s.serial_bit > 7 {
            (
                SerialView { serial_cycles: sum, serial_bit: (s.serial_bit - 1) as i32 },
                m.stored(0xFF02, 0x7F).interrupt_requested(3),
            )
        } else {
            let sb = m.load(0xFF01);
            (
                SerialView { serial_cycles: (sum - 512) as i32, serial_bit: (s.serial_bit + 1) as i32 },
                m.stored(0xFF01, ((sb % 128) * 2 + 1) as u8),
            )
        }
    }
}

impl Serial {
    pub fn new() -> (r: Serial)
        ensures
            r@.serial_cycles == 0 && r@.serial_bit == 0,
    {
        Serial { serial_cycles: 0, serial_bit: 0 }
    }

    /// Runs the port for `cycles` cycles.
    pub fn update(&mut self, cycles: i32, memory: &mut Memory)
        requires
            old(memory)@.wf(),
            i32::MIN <= old(self)@.serial_cycles + cycles <= i32::MAX,
            old(self)@.serial_bit > i32::MIN,
        ensures
            (final(self)@, final(memory)@) == serial_updated(old(self)@, old(memory)@, cycles as int),
            final(memory)@.wf(),
    {
        proof {
            lemma_serial_registers(memory@, 0xFF02, 0x7F, 0);
        }
        let sc = memory.read_byte(0xFF02);
        if sc >= 0x80 && sc % 2 == 1 {
            self.serial_cycles += cycles;
            if self.serial_bit < 0 {
                self.serial_bit = 0;
                self.serial_cycles = 0;
                return;
            }
            let serial_cycles: i32 = 512;
            if self.serial_cycles >= serial_cycles {
                if self.serial_bit > 7 {
                    let ghost m0 = memory@;
                    memory.write_byte(0xFF02, 0x7F);
                    proof {
                        let now = choose|now: u64| memory@ == m0.write_at(0xFF02, 0x7F, now);
                        lemma_serial_registers(m0, 0xFF02, 0x7F, now);
                    }
                    memory.request_interrupt(Interrupt::Serial);
                    self.serial_bit -= 1;
                    return;
                }
                proof {
                    lemma_serial_registers(memory@, 0xFF01, 0, 0);
                }
                let mut sb = memory.read_byte(0xFF01);
                sb = (sb % 128) * 2;
                sb = sb + 1;
                let ghost m0 = memory@;
                memory.write_byte(0xFF01, sb);
                proof {
                    let now = choose|now: u64| memory@ == m0.write_at(0xFF01, sb, now);
                    lemma_serial_registers(m0, 0xFF01, sb, now);
                }
                self.serial_cycles -= serial_cycles;
                self.serial_bit += 1;
            }
        }
    }
}

} // verus!
