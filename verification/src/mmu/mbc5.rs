use vstd::prelude::*;
use crate::bit_utils::lemma_and_bounds_i32;
use crate::mmu::cartridge::{Cartridge, CartridgeView};
use crate::mmu::rom_only::mbc_address;
use crate::rtc::Rtc;

verus! {

/// The MBC5 controller: up to 8 MiB of ROM in 9-bit numbered banks and RAM banks of 8 KiB.
pub struct Mbc5 {
    cartridge: Cartridge,
    eram: Vec<u8>,
    selected_rom_bank: i32,
    selected_rom_bank_high: i32,
    selected_eram_bank: i32,
    external_ram_enabled: bool,
}

pub struct Mbc5View {
    pub cart: CartridgeView,
    /// The RAM banks, one after the other.
    pub eram: Seq<u8>,
    pub selected_rom_bank: i32,
    pub selected_rom_bank_high: i32,
    pub selected_eram_bank: i32,
    pub external_ram_enabled: bool,
}

impl View for Mbc5 {
    type V = Mbc5View;

    closed spec fn view(&self) -> Mbc5View {
        Mbc5View {
            cart: self.cartridge@,
            eram: self.eram@,
            selected_rom_bank: self.selected_rom_bank,
            selected_rom_bank_high: self.selected_rom_bank_high,
            selected_eram_bank: self.selected_eram_bank,
            external_ram_enabled: self.external_ram_enabled,
        }
    }
}

/// A RAM layout the controller addresses in full: as many 8 KiB banks are allocated
/// as the RAM-size code says, so every bank that can be selected must be among them.
pub open spec fn mbc5_ram_fits(cart: CartridgeView) -> bool {
    cart.ram_size == 0 || cart.ram_banks <= cart.ram_size
}

/// The mask a bank number is cut down with: one less than the bank count, as a signed
/// 32-bit value (a count of zero gives the mask with every bit set).
pub open spec fn bank_mask(banks: usize) -> i32 {
    if banks == 0 {
        -1i32
    } else {
        (banks - 1) as i32
    }
}

impl Mbc5View {
    pub open spec fn wf(self) -> bool {
        &&& self.cart.wf()
        &&& mbc5_ram_fits(self.cart)
        &&& self.eram.len() == self.cart.ram_size * 0x2000
        &&& 0 <= self.selected_rom_bank
        &&& self.selected_rom_bank <= 0x1FF
        &&& (self.selected_rom_bank as int) < self.cart.rom_banks
        &&& 0 <= self.selected_rom_bank_high <= 1
        &&& 0 <= self.selected_eram_bank <= 0x0F
        &&& (self.cart.ram_size > 0 ==> self.selected_eram_bank < self.cart.ram_size)
    }

    pub open spec fn read(self, index: u16) -> u8 {
        if index <= 0x3FFF {
            self.cart.rom[index as int]
        } else if index <= 0x7FFF {
            self.cart.rom[index - 0x4000 + self.selected_rom_bank * 0x4000]
        } else if self.external_ram_enabled && self.cart.ram_size > 0 {
            self.eram[self.selected_eram_bank * 0x2000 + index - 0xA000]
        } else {
            0xFF
        }
    }

    pub open spec fn write(self, index: u16, value: u8) -> Mbc5View {
        if index <= 0x1FFF {
            Mbc5View { external_ram_enabled: value & 0x0F == 0x0A, ..self }
        } else if index <= 0x2FFF {
            Mbc5View {
                selected_rom_bank: (value as i32 | (self.selected_rom_bank_high << 8i32)) & bank_mask(
                    self.cart.rom_banks,
                ),
                ..self
            }
        } else if index <= 0x3FFF {
            let high = value as i32 & 0x01;
            Mbc5View {
                selected_rom_bank_high: high,
                selected_rom_bank: ((self.selected_rom_bank & 0xFF) | (high << 8i32)) & bank_mask(
                    self.cart.rom_banks,
                ),
                ..self
            }
        } else if index <= 0x5FFF {
            Mbc5View {
                selected_eram_bank: (value as i32 & 0x0F) & bank_mask(self.cart.ram_banks),
                ..self
            }
        } else if index <= 0x7FFF {
            self
        } else if self.external_ram_enabled && self.cart.ram_size > 0 {
            Mbc5View {
                eram: self.eram.update(self.selected_eram_bank * 0x2000 + index - 0xA000, value),
                ..self
            }
        } else {
            self
        }
    }
}

proof fn lemma_bank_bits(x: i32, h: i32)
    by (bit_vector)
    requires
        0 <= x <= 0xFF,
        0 <= h <= 1,
    ensures
        0 <= x | (h << 8i32) <= 0x1FF,
{
}

impl Mbc5 {
    pub fn new(cartridge: Cartridge) -> (r: Mbc5)
        requires
            cartridge@.wf(),
        ensures
            r@ == (Mbc5View {
                cart: cartridge@,
                eram: Seq::new((cartridge@.ram_size * 0x2000) as nat, |i: int| 0xFFu8),
                selected_rom_bank: 1,
                selected_rom_bank_high: 0,
                selected_eram_bank: 0,
                external_ram_enabled: false,
            }),
    {
        let size = cartridge.get_ram_size();
        let eram = vec![0xFFu8; size * 0x2000];
        let r = Mbc5 {
            cartridge,
            eram,
            selected_rom_bank: 1,
            selected_rom_bank_high: 0,
            selected_eram_bank: 0,
            external_ram_enabled: false,
        };
        assert(r@.eram =~= Seq::new((cartridge@.ram_size * 0x2000) as nat, |i: int| 0xFFu8));
        r
    }

    fn rom_mask(&self) -> (r: i32)
        requires
            self@.wf(),
        ensures
            r == bank_mask(self@.cart.rom_banks),
    {
        let banks = self.cartridge.get_rom_banks();
        (banks - 1) as i32
    }

    fn ram_mask(&self) -> (r: i32)
        ensures
            r == bank_mask(self@.cart.ram_banks),
    {
        let banks = self.cartridge.get_ram_banks();
        if banks == 0 {
            -1
        } else {
            (banks - 1) as i32
        }
    }

    pub fn read_byte(&self, index: u16) -> (r: u8)
        requires
            self@.wf(),
            mbc_address(index),
        ensures
            r == self@.read(index),
    {
        if index <= 0x3FFF {
            self.cartridge.read_rom(index as usize)
        } else if index <= 0x7FFF {
            let offset = self.selected_rom_bank as usize * 0x4000;
            self.cartridge.read_rom(index as usize - 0x4000 + offset)
        } else if self.external_ram_enabled && self.cartridge.get_ram_size() > 0 {
            self.eram[self.selected_eram_bank as usize * 0x2000 + (index as usize - 0xA000)]
        } else {
            0xFF
        }
    }

    pub fn write_byte(&mut self, index: u16, value: u8)
        requires
            old(self)@.wf(),
            mbc_address(index),
        ensures
            final(self)@ == old(self)@.write(index, value),
            final(self)@.wf(),
    {
        if index <= 0x1FFF {
            self.external_ram_enabled = (value & 0x0F) == 0x0A;
        } else if index <= 0x2FFF {
            let mask = self.rom_mask();
            proof {
                lemma_bank_bits(value as i32, self.selected_rom_bank_high);
                lemma_and_bounds_i32(value as i32 | (self.selected_rom_bank_high << 8i32), mask);
            }
            self.selected_rom_bank = (value as i32 | (self.selected_rom_bank_high << 8i32)) & mask;
        } else if index <= 0x3FFF {
            let mask = self.rom_mask();
            self.selected_rom_bank_high = value as i32 & 0x01;
            proof {
                lemma_and_bounds_i32(value as i32, 0x01);
                lemma_and_bounds_i32(self.selected_rom_bank, 0xFF);
                lemma_bank_bits(self.selected_rom_bank & 0xFF, self.selected_rom_bank_high);
                lemma_and_bounds_i32((self.selected_rom_bank & 0xFF) | (self.selected_rom_bank_high << 8i32), mask);
            }
            self.selected_rom_bank = ((self.selected_rom_bank & 0xFF) | (self.selected_rom_bank_high << 8i32)) & mask;
        } else if index <= 0x5FFF {
            let mask = self.ram_mask();
            proof {
                lemma_and_bounds_i32(value as i32, 0x0F);
                lemma_and_bounds_i32(value as i32 & 0x0F, mask);
            }
            self.selected_eram_bank = (value as i32 & 0x0F) & mask;
        } else if index <= 0x7FFF {
        } else if self.external_ram_enabled && self.cartridge.get_ram_size() > 0 {
            let address = self.selected_eram_bank as usize * 0x2000 + (index as usize - 0xA000);
            self.eram.set(address, value);
        }
    }

    pub fn get_cartridge(&self) -> (r: &Cartridge)
        ensures
            r@ == self@.cart,
    {
        &self.cartridge
    }

    /// Replaces the cartridge RAM with a saved image at least as long.
    pub fn set_cartridge_ram(&mut self, ram: Vec<u8>)
        requires
            old(self)@.wf(),
            ram@.len() >= old(self)@.cart.ram.len(),
        ensures
            final(self)@ == (Mbc5View { cart: CartridgeView { ram: ram@, ..old(self)@.cart }, ..old(self)@ }),
            final(self)@.wf(),
    {
        self.cartridge.set_ram(ram);
    }

    /// Records the clock registers and the time they were saved at.
    pub fn set_last_timestamp(&mut self, rtc: Rtc, last_time: u64)
        requires
            old(self)@.wf(),
        ensures
            final(self)@ == (Mbc5View { cart: CartridgeView { rtc, last_time, ..old(self)@.cart }, ..old(self)@ }),
            final(self)@.wf(),
    {
        self.cartridge.set_last_timestamp(rtc, last_time);
    }
}


/// A ROM bank count an MBC5 cartridge can have: a power of two up to 512.
pub open spec fn mbc5_bank_count(n: usize) -> bool {
    n == 2 || n == 4 || n == 8 || n == 16 || n == 32 || n == 64 || n == 128 || n == 256 || n == 512
}

proof fn lemma_bank_number(v: i32, h: i32, n: i32)
    by (bit_vector)
    requires
        0 <= v <= 0xFF,
        0 <= h <= 1,
        n == 2 || n == 4 || n == 8 || n == 16 || n == 32 || n == 64 || n == 128 || n == 256 || n == 512,
    ensures
        (v | (h << 8i32)) == v + 256 * h,
        (v | (h << 8i32)) & ((n - 1) as i32) == (v + 256 * h) % (n as int),
{
}

/// A write of `v` to 0x2000..=0x2FFF selects ROM bank `v + 256 * high` (the high bit
/// from 0x3000..=0x3FFF), taken modulo the bank count; the switchable area then
/// reads that bank: all eight bits of `v` count.
pub proof fn lemma_mbc5_low_bank_select(m: Mbc5View, index: u16, v: u8, i: int)
    requires
        m.wf(),
        0x2000 <= index <= 0x2FFF,
        mbc5_bank_count(m.cart.rom_banks),
        0 <= i < 0x4000,
    ensures
        m.write(index, v).selected_rom_bank == (v + 256 * m.selected_rom_bank_high) % (m.cart.rom_banks as int),
        m.write(index, v).read((0x4000 + i) as u16) == m.cart.rom[((v + 256 * m.selected_rom_bank_high) % (
        m.cart.rom_banks as int)) * 0x4000 + i],
{
    lemma_bank_number(v as i32, m.selected_rom_bank_high, m.cart.rom_banks as i32);
}

} // verus!
