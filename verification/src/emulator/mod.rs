pub mod step_result;
pub mod traits;

use vstd::prelude::*;
use crate::cpu::Cpu;
use crate::cpu::semantics::{can_step, pushes, reported_cycles, steps};
use crate::emulator::step_result::StepResult;
use crate::emulator::traits::{PixelMapper, RTC};
use crate::gpu::GPU;
use crate::gpu::GpuView;
use crate::gpu::mapped_pixel::{MappedPixel, show_pixels};
use crate::gpu::step::{step_ok, step_output, stepped};
use crate::joypad::{Controller, ControllerView, controller_updated};
use crate::mmu::cartridge::Cartridge;
use crate::mmu::interrupt::Interrupt;
use crate::mmu::cartridge::CartridgeView;
use crate::mmu::mbc::{cartridge_supported, mbc_for};
use crate::mmu::memory::{Memory, MemoryView};
use crate::serial::{Serial, SerialView, serial_updated};
use crate::timer::{Timer, timer_updated};

verus! {

/// The machine: processor, display unit, timer, serial port and memory.
pub struct Emulator {
    cpu: Cpu,
    gpu: GPU,
    timer: Timer,
    serial: Serial,
    memory: Memory,
}

pub struct EmulatorView {
    pub cpu: Cpu,
    pub gpu: GpuView,
    pub serial: SerialView,
    pub memory: MemoryView,
}

impl View for Emulator {
    type V = EmulatorView;

    closed spec fn view(&self) -> EmulatorView {
        EmulatorView { cpu: self.cpu, gpu: self.gpu@, serial: self.serial@, memory: self.memory@ }
    }
}

impl EmulatorView {
    pub open spec fn wf(self) -> bool {
        self.memory.wf() && self.gpu.wf()
    }
}

/// `m` with each interrupt of `q` requested in turn.
pub open spec fn interrupts_requested(m: MemoryView, q: Seq<Interrupt>) -> MemoryView
    decreases q.len(),
{
    if q.len() == 0 {
        m
    } else {
        interrupts_requested(m.interrupt_requested(q[0].bit()), q.subrange(1, q.len() as int))
    }
}

/// The address of the handler of an interrupt.
pub open spec fn interrupt_vector(i: Interrupt) -> u16 {
    match i {
        Interrupt::Vblank => 0x40,
        Interrupt::Lcd => 0x48,
        Interrupt::Timer => 0x50,
        Interrupt::Serial => 0x58,
        Interrupt::Joypad => 0x60,
    }
}

/// Each interrupt's handler starts at 0x40 plus eight times its bit: vertical
/// blank 0x40, LCD status 0x48, timer 0x50, serial 0x58, joypad 0x60.
pub proof fn lemma_interrupt_vectors(i: Interrupt)
    ensures
        interrupt_vector(i) == 0x40 + 8 * i.bit(),
{
}

/// The highest-priority pending and enabled interrupt is taken: with interrupts
/// enabled, they are disabled, the program counter is pushed and the handler
/// entered, and the request is cleared; either way the processor leaves a halt.
/// With none pending nothing happens.
pub open spec fn interrupt_handled(c: Cpu, m: MemoryView, c2: Cpu, m2: MemoryView) -> bool {
    match m.pending_interrupt() {
        Some(i) => if c.interrupt_enabled {
            exists|m1: MemoryView|
                #[trigger] pushes(c, m, c.registers.pc, m1) && m2 == m1.interrupt_removed(i.bit()) && c2 == Cpu {
                    halted: false,
                    interrupt_enabled: false,
                    ..c.with_sp(c.pushed_sp()).with_pc(interrupt_vector(i))
                }
        } else {
            m2 == m && c2 == Cpu { halted: false, ..c }
        },
        None => m2 == m && c2 == c,
    }
}

/// Everything after the processor step, in order: the timer, the audio unit, the
/// display unit (whose interrupts are then handed to memory), the controller and
/// the serial port, for the cycles the step took. Gives the memory, display unit,
/// controller and port, and whether the audio buffer filled and a frame completed.
pub open spec fn devices_run(e: EmulatorView, c: ControllerView, cycles: int, m1: MemoryView) -> (
    MemoryView,
    GpuView,
    ControllerView,
    SerialView,
    bool,
    bool,
) {
    let m2 = timer_updated(m1, cycles);
    let (snd, full) = m2.sound.run(cycles as nat);
    let m3 = MemoryView { sound: snd, ..m2 };
    let (g1, vblank) = stepped(e.gpu, cycles);
    let m4 = interrupts_requested(m3, g1.interrupts);
    let (c1, m5) = controller_updated(c, m4);
    let (s1, m6) = serial_updated(e.serial, m5, cycles);
    (m6, GpuView { interrupts: Seq::empty(), ..g1 }, c1, s1, full, vblank)
}

/// What the devices need after a processor step to `cpu1` and `m1`: the cycles it
/// took fit the timer and the display unit, the serial counters do not overflow,
/// and an interrupt taken can push the program counter.
pub open spec fn devices_ok(e: EmulatorView, c: ControllerView, cpu1: Cpu, m1: MemoryView) -> bool {
    let cycles = reported_cycles(cpu1) as int;
    let (m6, g, c1, s1, full, vblank) = devices_run(e, c, cycles, m1);
    &&& 0 <= cycles <= 1024
    &&& step_ok(e.gpu, cycles)
    &&& i32::MIN <= e.serial.serial_cycles + cycles <= i32::MAX
    &&& e.serial.serial_bit > i32::MIN
    &&& (m6.pending_interrupt() is Some && cpu1.interrupt_enabled) ==> m6.word_write_ok(
        cpu1.pushed_sp(),
        cpu1.registers.pc,
    )
}

/// A call of `emulate` can be carried out: the processor can take its step, and
/// whatever that step leaves, the devices can run after it.
pub open spec fn emulate_ok(e: EmulatorView, c: ControllerView) -> bool {
    &&& e.wf()
    &&& e.cpu.pending_enable_interrupts > i32::MIN
    &&& e.cpu.pending_disable_interrupts > i32::MIN
    &&& can_step(e.cpu, e.memory)
    &&& forall|cpu1: Cpu, m1: MemoryView| #[trigger] steps(e.cpu, e.memory, cpu1, m1) ==> devices_ok(e, c, cpu1, m1)
}

/// One call of `emulate`: a processor step, the devices for the cycles it took, then
/// interrupt handling. The result reports a full audio buffer before a frame;
/// `pixels` are the pixels the display unit showed meanwhile, in order.
pub open spec fn emulated_showing(
    e: EmulatorView,
    c: ControllerView,
    e2: EmulatorView,
    c2: ControllerView,
    r: StepResult,
    pixels: Seq<MappedPixel>,
) -> bool {
    exists|cpu1: Cpu, m1: MemoryView|
        #[trigger] steps(e.cpu, e.memory, cpu1, m1) && {
            let (m6, g, c1, s1, full, vblank) = devices_run(e, c, reported_cycles(cpu1) as int, m1);
            &&& c2 == c1
            &&& e2.gpu == g
            &&& e2.serial == s1
            &&& interrupt_handled(cpu1, m6, e2.cpu, e2.memory)
            &&& r == (if full {
                StepResult::AudioBufferFull
            } else if vblank {
                StepResult::VBlank
            } else {
                StepResult::Nothing
            })
            &&& pixels == step_output(e.gpu, reported_cycles(cpu1) as int)
        }
}

/// `emulated_showing` for some pixels shown.
pub open spec fn emulated(e: EmulatorView, c: ControllerView, e2: EmulatorView, c2: ControllerView, r: StepResult) -> bool {
    exists|pixels: Seq<MappedPixel>| #[trigger] emulated_showing(e, c, e2, c2, r, pixels)
}

impl EmulatorView {
    /// The machine as the boot program leaves it for `cart`, in the model the
    /// cartridge asks for: the processor, memory map and display unit booted, the
    /// controller the cartridge's type calls for (an MBC3 clock brought up to some
    /// wall-clock time), and the serial port idle.
    pub open spec fn booted(self, cart: CartridgeView) -> bool {
        &&& self.cpu.booted(cart.is_cgb)
        &&& self.gpu.booted(cart.is_cgb)
        &&& exists|first_now: u64, now: u64| self.memory.booted(#[trigger] mbc_for(cart, first_now, now), cart.is_cgb)
        &&& self.serial.serial_cycles == 0 && self.serial.serial_bit == 0
    }
}

impl Emulator {
    /// The machine for a cartridge, in the model the cartridge asks for.
    pub fn from_cartridge(cartridge: Cartridge, rtc: Box<dyn RTC>) -> (r: Emulator)
        requires
            cartridge_supported(cartridge@),
        ensures
            r@.wf(),
            r@.booted(cartridge@),
            r@.cpu.registers.pc == 0x0100 && r@.cpu.registers.sp == 0xFFFE,
            r@.cpu.is_cgb == cartridge@.is_cgb && !r@.cpu.halted && !r@.cpu.interrupt_enabled,
            r@.cpu.pending_enable_interrupts == -1 && r@.cpu.pending_disable_interrupts == -1,
            r@.memory.is_cgb == cartridge@.is_cgb,
            r@.memory.mbc.cartridge() == cartridge@ || r@.memory.mbc is Mbc3,
            r@.gpu.is_cgb == cartridge@.is_cgb,
    {
        let is_cgb = cartridge.is_cgb();
        Emulator {
            cpu: Cpu::new(is_cgb),
            gpu: GPU::new(is_cgb),
            timer: Timer::new(),
            serial: Serial::new(),
            memory: Memory::from_cartridge(cartridge, rtc, is_cgb),
        }
    }

    /// Hands the display unit's interrupts to memory, oldest first.
    fn forward_gpu_interrupts(&mut self)
        requires
            old(self)@.wf(),
        ensures
            final(self)@ == (EmulatorView {
                gpu: GpuView { interrupts: Seq::empty(), ..old(self)@.gpu },
                memory: interrupts_requested(old(self)@.memory, old(self)@.gpu.interrupts),
                ..old(self)@
            }),
            final(self)@.wf(),
    {
        let ghost m0 = self.memory@;
        let ghost q0 = self.gpu@.interrupts;
        loop
            invariant
                self.memory@.wf(),
                self.gpu@.wf(),
                self.gpu@ == (GpuView { interrupts: self.gpu@.interrupts, ..old(self)@.gpu }),
                self.cpu == old(self).cpu,
                self.serial@ == old(self).serial@,
                interrupts_requested(self.memory@, self.gpu@.interrupts) == interrupts_requested(m0, q0),
                m0 == old(self)@.memory,
                q0 == old(self)@.gpu.interrupts,
            ensures
                self.memory@.wf(),
                self.gpu@ == (GpuView { interrupts: Seq::empty(), ..old(self)@.gpu }),
                self.cpu == old(self).cpu,
                self.serial@ == old(self).serial@,
                self.memory@ == interrupts_requested(m0, q0),
            decreases self.gpu@.interrupts.len(),
        {
            let ghost before = self.memory@;
            let ghost q = self.gpu@.interrupts;
            match self.gpu.dequeue_interrupt() {
                Some(interrupt) => {
                    self.memory.request_interrupt(interrupt);
                    assert(interrupts_requested(before, q) == interrupts_requested(self.memory@, self.gpu@.interrupts));
                },
                None => {
                    assert(self.gpu@.interrupts =~= Seq::<Interrupt>::empty());
                    break;
                },
            }
        }
    }

    /// Runs one processor step and the devices for the cycles it took, then takes a
    /// pending interrupt; hands the pixels shown meanwhile to `system`, in order
    /// (those of `emulate_pixels`), and reports a full audio buffer or a completed
    /// frame.
    pub fn emulate<T: PixelMapper>(&mut self, system: &mut T, controller: &mut Controller) -> (r: StepResult)
        requires
            emulate_ok(old(self)@, old(controller)@),
        ensures
            emulated(old(self)@, old(controller)@, final(self)@, final(controller)@, r),
            final(self)@.wf(),
    {
        let (r, pixels) = self.emulate_pixels(controller);
        show_pixels(&pixels, system);
        r
    }

    /// Runs one processor step and the devices for the cycles it took, then takes a
    /// pending interrupt; gives the report of `emulate` and the pixels shown
    /// meanwhile, in order.
    pub fn emulate_pixels(&mut self, controller: &mut Controller) -> (r: (StepResult, Vec<MappedPixel>))
        requires
            emulate_ok(old(self)@, old(controller)@),
        ensures
            emulated_showing(old(self)@, old(controller)@, final(self)@, final(controller)@, r.0, r.1@),
            final(self)@.wf(),
    {
        let ghost e0 = self@;
        let ghost c0 = controller@;
        let cycles = self.cpu.step(&mut self.memory);
        let ghost cpu1 = self.cpu;
        let ghost m1 = self.memory@;
        assert(steps(e0.cpu, e0.memory, cpu1, m1));
        assert(devices_ok(e0, c0, cpu1, m1));
        self.timer.update(cycles, &mut self.memory);
        let audio_buffer_full = self.memory.step_sound(cycles);
        let (vblank, pixels) = self.gpu.step_pixels(cycles);
        self.forward_gpu_interrupts();
        controller.update(&mut self.memory);
        self.serial.update(cycles, &mut self.memory);
        self.handle_interrupts();
        let r = if audio_buffer_full {
            StepResult::AudioBufferFull
        } else if vblank {
            StepResult::VBlank
        } else {
            StepResult::Nothing
        };
        (r, pixels)
    }

    fn handle_interrupts(&mut self)
        requires
            old(self)@.wf(),
            (old(self)@.memory.pending_interrupt() is Some && old(self).cpu.interrupt_enabled)
                ==> old(self)@.memory.word_write_ok(old(self).cpu.pushed_sp(), old(self).cpu.registers.pc),
        ensures
            interrupt_handled(old(self).cpu, old(self)@.memory, final(self).cpu, final(self)@.memory),
            final(self)@.gpu == old(self)@.gpu,
            final(self)@.serial == old(self)@.serial,
            final(self)@.wf(),
    {
        if let Some(interrupt) = self.memory.get_interrupts() {
            self.process_interrupt(interrupt);
        }
    }

    fn process_interrupt(&mut self, interrupt: Interrupt)
        requires
            old(self)@.wf(),
            old(self)@.memory.pending_interrupt() == Some(interrupt),
            old(self).cpu.interrupt_enabled ==> old(self)@.memory.word_write_ok(
                old(self).cpu.pushed_sp(),
                old(self).cpu.registers.pc,
            ),
        ensures
            interrupt_handled(old(self).cpu, old(self)@.memory, final(self).cpu, final(self)@.memory),
            final(self)@.gpu == old(self)@.gpu,
            final(self)@.serial == old(self)@.serial,
            final(self)@.wf(),
    {
        if self.cpu.are_interrupts_enabled() {
            self.cpu.disable_interrupts();
            match interrupt {
                Interrupt::Vblank => self.cpu.rst_40(&mut self.memory),
                Interrupt::Lcd => self.cpu.rst_48(&mut self.memory),
                Interrupt::Timer => self.cpu.rst_50(&mut self.memory),
                Interrupt::Serial => self.cpu.rst_58(&mut self.memory),
                Interrupt::Joypad => self.cpu.rst_60(&mut self.memory),
            }
            let ghost m1 = self.memory@;
            self.memory.remove_interrupt(interrupt);
            assert(pushes(old(self).cpu, old(self)@.memory, old(self).cpu.registers.pc, m1));
        }
        self.cpu.unhalt();
    }

    pub fn get_cartridge(&self) -> (r: &Cartridge)
        ensures
            r@ == self@.memory.mbc.cartridge(),
    {
        self.memory.get_cartridge()
    }

    /// Replaces the cartridge RAM with a saved image at least as long.
    pub fn set_cartridge_ram(&mut self, ram: Vec<u8>)
        requires
            old(self)@.wf(),
            ram@.len() >= old(self)@.memory.mbc.cartridge().ram.len(),
        ensures
            final(self)@ == (EmulatorView {
                memory: MemoryView { mbc: old(self)@.memory.mbc.with_cartridge_ram(ram@), ..old(self)@.memory },
                ..old(self)@
            }),
            final(self)@.wf(),
    {
        self.memory.set_cartridge_ram(ram);
    }

    /// Records the cartridge clock registers and the time they were saved at.
    pub fn set_last_timestamp(&mut self, rtc: crate::rtc::Rtc, last_time: u64)
        requires
            old(self)@.wf(),
        ensures
            final(self)@ == (EmulatorView {
                memory: MemoryView { mbc: old(self)@.memory.mbc.with_timestamp(rtc, last_time), ..old(self)@.memory },
                ..old(self)@
            }),
            final(self)@.wf(),
    {
        self.memory.set_last_timestamp(rtc, last_time);
    }

    /// The cartridge RAM writes made since the last call, oldest first; they are
    /// forgotten.
    pub fn take_ram_changes(&mut self) -> (r: Vec<(usize, u8)>)
        requires
            old(self)@.wf(),
        ensures
            r@ == old(self)@.memory.ram_changes,
            final(self)@ == (EmulatorView {
                memory: MemoryView { ram_changes: Seq::empty(), ..old(self)@.memory },
                ..old(self)@
            }),
            final(self)@.wf(),
    {
        self.memory.take_ram_changes()
    }

    /// The audio unit.
    pub fn get_sound(&self) -> (r: &crate::sound::Sound)
        ensures
            r@ == self@.memory.sound,
    {
        self.memory.get_sound()
    }
}

} // verus!
