use vstd::prelude::*;
use crate::bit_utils::{lemma_and_bounds_u8, lemma_truncate_u8};
use crate::mmu::cartridge::{Cartridge, CartridgeView};
use crate::mmu::rom_only::mbc_address;
use crate::rtc::Rtc;

verus! {

/// The MBC2 controller: up to 256 KiB of ROM and 512 half-bytes of built-in RAM.
pub struct Mbc2 {
    cartridge: Cartridge,
    eram: Vec<u8>,
    selected_rom_bank: u8,
    external_ram_enabled: bool,
}

pub struct Mbc2View {
    pub cart: CartridgeView,
    pub eram: Seq<u8>,
    pub selected_rom_bank: u8,
    pub external_ram_enabled: bool,
}

impl View for Mbc2 {
    type V = Mbc2View;

    closed spec fn view(&self) -> Mbc2View {
        Mbc2View {
            cart: self.cartridge@,
            eram: self.eram@,
            selected_rom_bank: self.selected_rom_bank,
            external_ram_enabled: self.external_ram_enabled,
        }
    }
}

impl Mbc2View {
    pub open spec fn wf(self) -> bool {
        &&& self.cart.wf()
        &&& self.eram.len() == 0x200
        &&& (self.selected_rom_bank as usize) < self.cart.rom_banks
    }

    pub open spec fn read(self, index: u16) -> u8 {
        if index <= 0x3FFF {
            self.cart.rom[index as int]
        } else if index <= 0x7FFF {
            self.cart.rom[index - 0x4000 + self.selected_rom_bank * 0x4000]
        } else if index <= 0xA1FF {
            if self.external_ram_enabled && self.cart.ram_size > 0 {
                self.eram[index - 0xA000] & 0x0F
            } else {
                0xFF
            }
        } else {
            0x00
        }
    }

    pub open spec fn write(self, index: u16, value: u8) -> Mbc2View {
        if index <= 0x1FFF {
            Mbc2View { external_ram_enabled: value & 0x0F == 0x0A, ..self }
        } else if index <= 0x3FFF {
            if index & 0x0100 != 0 {
                let b = if value & 0x0F == 0 {
                    1u8
                } else {
                    value & 0x0F
                };
                Mbc2View { selected_rom_bank: b & ((self.cart.rom_banks - 1) as u8), ..self }
            } else {
                self
            }
        } else if index <= 0x7FFF {
            self
        } else if index <= 0xA1FF {
            if self.external_ram_enabled && self.cart.ram_size > 0 {
                Mbc2View { eram: self.eram.update(index - 0xA000, value & 0x0F), ..self }
            } else {
                self
            }
        } else {
            self
        }
    }
}

impl Mbc2 {
    pub fn new(cartridge: Cartridge) -> (r: Mbc2)
        ensures
            r@ == (Mbc2View {
                cart: cartridge@,
                eram: Seq::new(0x200, |i: int| 0xFFu8),
                selected_rom_bank: 1,
                external_ram_enabled: false,
            }),
    {
        let eram = vec![0xFFu8; 0x200];
        let r = Mbc2 { cartridge, eram, selected_rom_bank: 1, external_ram_enabled: false };
        assert(r@.eram =~= Seq::new(0x200, |i: int| 0xFFu8));
        r
    }

    pub fn read_byte(&self, index: u16) -> (r: u8)
        requires
            self@.wf(),
            mbc_address(index),
        ensures
            r == self@.read(index),
    {
        if index <= 0x3FFF {
            self.cartridge.read_rom(index as usize)
        } else if index <= 0x7FFF {
            let offset = self.selected_rom_bank as usize * 0x4000;
            self.cartridge.read_rom(index as usize - 0x4000 + offset)
        } else if index <= 0xA1FF {
            if self.external_ram_enabled && self.cartridge.get_ram_size() > 0 {
                self.eram[index as usize - 0xA000] & 0x0F
            } else {
                0xFF
            }
        } else {
            0x00
        }
    }

    pub fn write_byte(&mut self, index: u16, value: u8)
        requires
            old(self)@.wf(),
            mbc_address(index),
        ensures
            final(self)@ == old(self)@.write(index, value),
            final(self)@.wf(),
    {
        if index <= 0x1FFF {
            self.external_ram_enabled = (value & 0x0F) == 0x0A;
        } else if index <= 0x3FFF {
            if index & 0x0100 != 0 {
                self.selected_rom_bank = value & 0x0F;
                if self.selected_rom_bank == 0 {
                    self.selected_rom_bank = 1;
                }
                let mask = (self.cartridge.get_rom_banks() - 1) as u8;
                proof {
                    lemma_and_bounds_u8(self.selected_rom_bank, mask);
                    lemma_truncate_u8((self@.cart.rom_banks - 1) as usize);
                }
                self.selected_rom_bank &= mask;
            }
        } else if index <= 0x7FFF {
        } else if index <= 0xA1FF {
            if self.external_ram_enabled && self.cartridge.get_ram_size() > 0 {
                self.eram.set(index as usize - 0xA000, value & 0x0F);
            }
        }
    }

    pub fn get_cartridge(&self) -> (r: &Cartridge)
        ensures
            r@ == self@.cart,
    {
        &self.cartridge
    }

    /// Replaces the cartridge RAM with a saved image at least as long.
    pub fn set_cartridge_ram(&mut self, ram: Vec<u8>)
        requires
            old(self)@.wf(),
            ram@.len() >= old(self)@.cart.ram.len(),
        ensures
            final(self)@ == (Mbc2View { cart: CartridgeView { ram: ram@, ..old(self)@.cart }, ..old(self)@ }),
            final(self)@.wf(),
    {
        self.cartridge.set_ram(ram);
    }

    /// Records the clock registers and the time they were saved at.
    pub fn set_last_timestamp(&mut self, rtc: Rtc, last_time: u64)
        requires
            old(self)@.wf(),
        ensures
            final(self)@ == (Mbc2View { cart: CartridgeView { rtc, last_time, ..old(self)@.cart }, ..old(self)@ }),
            final(self)@.wf(),
    {
        self.cartridge.set_last_timestamp(rtc, last_time);
    }
}

} // verus!
