use vstd::prelude::*;

pub mod bit_utils;
pub mod button;
pub mod controller_event;
pub mod cpu;
pub mod emulator;
pub mod gpu;
pub mod joypad;
pub mod mmu;
pub mod rtc;
pub mod serial;
pub mod sound;
pub mod timer;

pub use crate::button::Button;
pub use crate::controller_event::ControllerEvent;
pub use crate::emulator::step_result::StepResult;
pub use crate::emulator::traits::{PixelMapper, RTC};
pub use crate::gpu::cgb_color::CGBColor;
pub use crate::gpu::color::Color;
pub use crate::gpu::mapped_pixel::MappedPixel;
pub use crate::joypad::Controller;
pub use crate::mmu::cartridge::{Cartridge, CartridgeError};
pub use crate::rtc::Rtc;

use crate::emulator::{Emulator, EmulatorView, emulate_ok, emulated, emulated_showing};
use crate::joypad::{ControllerView, pressed, released};
use crate::mmu::cartridge::{cartridge_of, mbc_type_of, ram_banks_of};
use crate::mmu::mbc::cartridge_supported;
use crate::mmu::memory::MemoryView;

verus! {

/// A console with a cartridge inserted and its buttons.
pub struct Gameboy {
    emulator: Emulator,
    controller: Controller,
}

pub struct GameboyView {
    pub emulator: EmulatorView,
    pub controller: ControllerView,
}

impl View for Gameboy {
    type V = GameboyView;

    closed spec fn view(&self) -> GameboyView {
        GameboyView { emulator: self.emulator@, controller: self.controller@ }
    }
}

/// The header of a ROM image names an emulated controller and a known RAM size.
pub open spec fn header_known(rom: Seq<u8>) -> bool {
    mbc_type_of(rom[0x0147]) is Some && ram_banks_of(rom[0x0149]) is Some
}

/// The cartridge that a ROM image with a known header describes.
pub open spec fn rom_cartridge(rom: Seq<u8>) -> crate::mmu::cartridge::CartridgeView {
    cartridge_of(rom, mbc_type_of(rom[0x0147])->Some_0, ram_banks_of(rom[0x0149])->Some_0)
}

impl Gameboy {
    /// Loads a game from its ROM image; an MBC3 cartridge reads the clock.
    pub fn from_rom(rom: Vec<u8>, rtc: Box<dyn RTC>) -> (r: Result<Gameboy, CartridgeError>)
        requires
            rom@.len() >= 0x014A,
            header_known(rom@) ==> cartridge_supported(rom_cartridge(rom@)),
        ensures
            mbc_type_of(rom@[0x0147]) is None ==> r == Err::<Gameboy, CartridgeError>(
                CartridgeError::UnsupportedCartridgeType(rom@[0x0147]),
            ),
            mbc_type_of(rom@[0x0147]) is Some && ram_banks_of(rom@[0x0149]) is None ==> r == Err::<
                Gameboy,
                CartridgeError,
            >(CartridgeError::UnknownRamBanks(rom@[0x0149])),
            header_known(rom@) ==> r is Ok && r->Ok_0@.emulator.wf() && r->Ok_0@.emulator.booted(rom_cartridge(rom@))
                && r->Ok_0@.controller == (ControllerView {
                released: 0xFF,
                button_pressed: false,
                direction_pressed: false,
            }),
    {
        match Cartridge::from_rom(rom) {
            Ok(cartridge) => {
                let emulator = Emulator::from_cartridge(cartridge, rtc);
                Ok(Gameboy { emulator, controller: Controller::new() })
            },
            Err(e) => Err(e),
        }
    }

    /// Runs one emulation step (see `emulated`).
    pub fn emulate<T: PixelMapper>(&mut self, system: &mut T) -> (r: StepResult)
        requires
            emulate_ok(old(self)@.emulator, old(self)@.controller),
        ensures
            emulated(old(self)@.emulator, old(self)@.controller, final(self)@.emulator, final(self)@.controller, r),
            final(self)@.emulator.wf(),
    {
        self.emulator.emulate(system, &mut self.controller)
    }

    /// Runs one emulation step; gives its report and the pixels shown meanwhile,
    /// in order (see `emulated_showing`).
    pub fn emulate_pixels(&mut self) -> (r: (StepResult, Vec<MappedPixel>))
        requires
            emulate_ok(old(self)@.emulator, old(self)@.controller),
        ensures
            emulated_showing(old(self)@.emulator, old(self)@.controller, final(self)@.emulator, final(self)@.controller, r.0, r.1@),
            final(self)@.emulator.wf(),
    {
        self.emulator.emulate_pixels(&mut self.controller)
    }

    /// Replaces the cartridge RAM with a saved image at least as long.
    pub fn set_cartridge_ram(&mut self, ram: Vec<u8>)
        requires
            old(self)@.emulator.wf(),
            ram@.len() >= old(self)@.emulator.memory.mbc.cartridge().ram.len(),
        ensures
            final(self)@.emulator == (EmulatorView {
                memory: MemoryView {
                    mbc: old(self)@.emulator.memory.mbc.with_cartridge_ram(ram@),
                    ..old(self)@.emulator.memory
                },
                ..old(self)@.emulator
            }),
            final(self)@.controller == old(self)@.controller,
            final(self)@.emulator.wf(),
    {
        self.emulator.set_cartridge_ram(ram)
    }

    pub fn has_battery(&self) -> (r: bool)
        ensures
            r == self@.emulator.memory.mbc.cartridge().has_battery,
    {
        self.emulator.get_cartridge().has_battery()
    }

    pub fn has_rtc(&self) -> (r: bool)
        ensures
            r == self@.emulator.memory.mbc.cartridge().has_rtc,
    {
        self.emulator.get_cartridge().has_rtc()
    }

    pub fn get_cartridge_ram(&self) -> (r: &[u8])
        ensures
            r@ == self@.emulator.memory.mbc.cartridge().ram,
    {
        self.emulator.get_cartridge().get_ram()
    }

    pub fn get_cartridge_name(&self) -> (r: &str)
        ensures
            r@ == self@.emulator.memory.mbc.cartridge().name,
    {
        self.emulator.get_cartridge().get_name()
    }

    /// The clock registers and the time they were saved at.
    pub fn get_last_timestamp(&self) -> (r: (Rtc, u64))
        ensures
            r == (self@.emulator.memory.mbc.cartridge().rtc, self@.emulator.memory.mbc.cartridge().last_time),
    {
        self.emulator.get_cartridge().get_last_timestamp()
    }

    pub fn set_last_timestamp(&mut self, rtc: Rtc, timestamp: u64)
        requires
            old(self)@.emulator.wf(),
        ensures
            final(self)@.emulator == (EmulatorView {
                memory: MemoryView {
                    mbc: old(self)@.emulator.memory.mbc.with_timestamp(rtc, timestamp),
                    ..old(self)@.emulator.memory
                },
                ..old(self)@.emulator
            }),
            final(self)@.controller == old(self)@.controller,
            final(self)@.emulator.wf(),
    {
        self.emulator.set_last_timestamp(rtc, timestamp)
    }

    /// The cartridge RAM writes made since the last call, oldest first, as (offset,
    /// value) pairs; they are forgotten.
    pub fn take_ram_changes(&mut self) -> (r: Vec<(usize, u8)>)
        requires
            old(self)@.emulator.wf(),
        ensures
            r@ == old(self)@.emulator.memory.ram_changes,
            final(self)@.emulator == (EmulatorView {
                memory: MemoryView { ram_changes: Seq::empty(), ..old(self)@.emulator.memory },
                ..old(self)@.emulator
            }),
            final(self)@.controller == old(self)@.controller,
            final(self)@.emulator.wf(),
    {
        self.emulator.take_ram_changes()
    }

    pub fn press_button(&mut self, button: Button)
        ensures
            final(self)@.controller == pressed(old(self)@.controller, button),
            final(self)@.emulator == old(self)@.emulator,
    {
        self.controller.press(button)
    }

    pub fn release_button(&mut self, button: Button)
        ensures
            final(self)@.controller == released(old(self)@.controller, button),
            final(self)@.emulator == old(self)@.emulator,
    {
        self.controller.release(button)
    }
}

} // verus!
