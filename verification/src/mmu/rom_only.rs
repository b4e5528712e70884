use vstd::prelude::*;
use crate::mmu::cartridge::{Cartridge, CartridgeView};
use crate::rtc::Rtc;

verus! {

/// A cartridge without a bank controller: 32 KiB of ROM and, optionally, 8 KiB of RAM.
pub struct RomOnly {
    cartridge: Cartridge,
}

impl View for RomOnly {
    type V = CartridgeView;

    closed spec fn view(&self) -> CartridgeView {
        self.cartridge@
    }
}

/// The addresses a controller answers: ROM and external RAM.
pub open spec fn mbc_address(index: u16) -> bool {
    index <= 0x7FFF || (0xA000 <= index <= 0xBFFF)
}

/// The cartridge is well formed and its RAM covers the 8 KiB window.
pub open spec fn rom_only_wf(c: CartridgeView) -> bool {
    c.wf() && c.ram.len() >= 0x2000
}

pub open spec fn rom_only_read(c: CartridgeView, index: u16) -> u8 {
    if index <= 0x7FFF {
        c.rom[index as int]
    } else if c.ram_size > 0 {
        c.ram[index - 0xA000]
    } else {
        0xFF
    }
}

/// The cartridge after a write, and the RAM byte it changed, if any.
pub open spec fn rom_only_write(c: CartridgeView, index: u16, value: u8) -> (CartridgeView, Option<(usize, u8)>) {
    if index <= 0x7FFF || c.ram_size == 0 {
        (c, None)
    } else {
        (CartridgeView { ram: c.ram.update(index - 0xA000, value), ..c }, Some(((index - 0xA000) as usize, value)))
    }
}

impl RomOnly {
    pub fn new(cartridge: Cartridge) -> (r: RomOnly)
        ensures
            r@ == cartridge@,
    {
        RomOnly { cartridge }
    }

    pub fn read_byte(&self, index: u16) -> (r: u8)
        requires
            rom_only_wf(self@),
            mbc_address(index),
        ensures
            r == rom_only_read(self@, index),
    {
        if index <= 0x7FFF {
            self.cartridge.read_rom(index as usize)
        } else if self.cartridge.get_ram_size() > 0 {
            self.cartridge.read_ram(index as usize - 0xA000)
        } else {
            0xFF
        }
    }

    pub fn write_byte(&mut self, index: u16, value: u8) -> (r: Option<(usize, u8)>)
        requires
            rom_only_wf(old(self)@),
            mbc_address(index),
        ensures
            (final(self)@, r) == rom_only_write(old(self)@, index, value),
    {
        if index <= 0x7FFF {
            None
        } else if self.cartridge.get_ram_size() > 0 {
            let address = index as usize - 0xA000;
            self.cartridge.write_ram(address, value);
            Some((address, value))
        } else {
            None
        }
    }

    pub fn get_cartridge(&self) -> (r: &Cartridge)
        ensures
            r@ == self@,
    {
        &self.cartridge
    }

    pub fn get_cartridge_mut(&mut self) -> (r: &mut Cartridge)
        ensures
            r@ == old(self)@,
            final(self)@ == final(r)@,
    {
        &mut self.cartridge
    }

    /// Replaces the cartridge RAM with a saved image at least as long.
    pub fn set_cartridge_ram(&mut self, ram: Vec<u8>)
        requires
            rom_only_wf(old(self)@),
            ram@.len() >= old(self)@.ram.len(),
        ensures
            final(self)@ == (CartridgeView { ram: ram@, ..old(self)@ }),
            rom_only_wf(final(self)@),
    {
        self.cartridge.set_ram(ram);
    }

    /// Records the clock registers and the time they were saved at.
    pub fn set_last_timestamp(&mut self, rtc: Rtc, last_time: u64)
        requires
            rom_only_wf(old(self)@),
        ensures
            final(self)@ == (CartridgeView { rtc, last_time, ..old(self)@ }),
            rom_only_wf(final(self)@),
    {
        self.cartridge.set_last_timestamp(rtc, last_time);
    }
}

} // verus!
