use vstd::prelude::*;
use crate::bit_utils::{lemma_and_bounds_u8, lemma_truncate_u8};
use crate::mmu::cartridge::{Cartridge, CartridgeView};
use crate::mmu::rom_only::mbc_address;
use crate::rtc::Rtc;

verus! {

/// The MBC1 controller: up to 2 MiB of ROM and 32 KiB of RAM in switchable banks.
pub struct Mbc1 {
    cartridge: Cartridge,
    selected_rom_bank: u8,
    selected_eram_bank: u8,
    in_ram_banking_mode: bool,
    external_ram_enabled: bool,
    higher_rom_bank_bits: u8,
}

pub struct Mbc1View {
    pub cart: CartridgeView,
    pub selected_rom_bank: u8,
    pub selected_eram_bank: u8,
    pub in_ram_banking_mode: bool,
    pub external_ram_enabled: bool,
    pub higher_rom_bank_bits: u8,
}

impl View for Mbc1 {
    type V = Mbc1View;

    closed spec fn view(&self) -> Mbc1View {
        Mbc1View {
            cart: self.cartridge@,
            selected_rom_bank: self.selected_rom_bank,
            selected_eram_bank: self.selected_eram_bank,
            in_ram_banking_mode: self.in_ram_banking_mode,
            external_ram_enabled: self.external_ram_enabled,
            higher_rom_bank_bits: self.higher_rom_bank_bits,
        }
    }
}

impl Mbc1View {
    /// The selected banks exist and the RAM covers all four RAM banks.
    pub open spec fn wf(self) -> bool {
        &&& self.cart.wf()
        &&& self.cart.ram.len() >= 0x8000
        &&& (self.selected_rom_bank as usize) < self.cart.rom_banks
        &&& self.selected_eram_bank <= 3
        &&& self.higher_rom_bank_bits <= 3
        &&& self.in_ram_banking_mode ==> self.cart.ram_size == 3
    }

    /// The RAM bank the window at 0xA000 shows.
    pub open spec fn ram_bank(self) -> int {
        if self.in_ram_banking_mode {
            self.selected_eram_bank as int
        } else {
            0
        }
    }

    pub open spec fn read(self, index: u16) -> u8 {
        if index <= 0x3FFF {
            self.cart.rom[index as int]
        } else if index <= 0x7FFF {
            self.cart.rom[index - 0x4000 + self.selected_rom_bank * 0x4000]
        } else if self.external_ram_enabled {
            self.cart.ram[index - 0xA000 + self.ram_bank() * 0x2000]
        } else {
            0xFF
        }
    }

    pub open spec fn write(self, index: u16, value: u8) -> Mbc1View {
        if index <= 0x1FFF {
            if self.cart.ram_size > 0 {
                Mbc1View { external_ram_enabled: value & 0x0F == 0x0A, ..self }
            } else {
                self
            }
        } else if index <= 0x3FFF {
            let bank = if self.in_ram_banking_mode {
                value & 0x1F
            } else {
                (value & 0x1F) | (self.higher_rom_bank_bits << 5u8)
            };
            Mbc1View { selected_rom_bank: self.fit_rom_bank(bank), ..self }
        } else if index <= 0x5FFF {
            if self.in_ram_banking_mode {
                Mbc1View {
                    selected_eram_bank: (value & 0x03) & ((self.cart.ram_banks - 1) as u8),
                    ..self
                }
            } else {
                let high = value & 0x03;
                Mbc1View {
                    higher_rom_bank_bits: high,
                    selected_rom_bank: self.fit_rom_bank((self.selected_rom_bank & 0x1F) | (high << 5u8)),
                    ..self
                }
            }
        } else if index <= 0x7FFF {
            if !(self.cart.ram_size != 3 && value & 0x01 != 0) {
                Mbc1View { in_ram_banking_mode: value & 0x01 != 0, ..self }
            } else {
                self
            }
        } else if self.external_ram_enabled {
            Mbc1View {
                cart: CartridgeView {
                    ram: self.cart.ram.update(index - 0xA000 + self.ram_bank() * 0x2000, value),
                    ..self.cart
                },
                ..self
            }
        } else {
            self
        }
    }

    /// Banks 0x00, 0x20, 0x40 and 0x60 cannot be selected and give the next bank;
    /// the number is then cut down to the banks the ROM has.
    pub open spec fn fit_rom_bank(self, bank: u8) -> u8 {
        let b = if bank == 0x00 || bank == 0x20 || bank == 0x40 || bank == 0x60 {
            (bank + 1) as u8
        } else {
            bank
        };
        b & ((self.cart.rom_banks - 1) as u8)
    }
}

impl Mbc1 {
    pub fn new(cartridge: Cartridge) -> (r: Mbc1)
        ensures
            r@ == (Mbc1View {
                cart: cartridge@,
                selected_rom_bank: 1,
                selected_eram_bank: 0,
                in_ram_banking_mode: false,
                external_ram_enabled: false,
                higher_rom_bank_bits: 0,
            }),
    {
        Mbc1 {
            cartridge,
            selected_rom_bank: 1,
            selected_eram_bank: 0,
            in_ram_banking_mode: false,
            external_ram_enabled: false,
            higher_rom_bank_bits: 0,
        }
    }

    pub fn read_byte(&self, index: u16) -> (r: u8)
        requires
            self@.wf(),
            mbc_address(index),
        ensures
            r == self@.read(index),
    {
        if index <= 0x3FFF {
            self.cartridge.read_rom(index as usize)
        } else if index <= 0x7FFF {
            let offset = self.selected_rom_bank as usize * 0x4000;
            self.cartridge.read_rom(index as usize - 0x4000 + offset)
        } else if self.external_ram_enabled {
            let selected_bank = if self.in_ram_banking_mode {
                self.selected_eram_bank as usize
            } else {
                0
            };
            let offset = selected_bank * 0x2000;
            self.cartridge.read_ram(index as usize - 0xA000 + offset)
        } else {
            0xFF
        }
    }

    fn fit_rom_bank(&self, bank: u8) -> (r: u8)
        requires
            self@.wf(),
        ensures
            r == self@.fit_rom_bank(bank),
            (r as usize) < self@.cart.rom_banks,
    {
        let mut b = bank;
        if b == 0x00 || b == 0x20 || b == 0x40 || b == 0x60 {
            b += 1;
        }
        let mask = (self.cartridge.get_rom_banks() - 1) as u8;
        proof {
            lemma_and_bounds_u8(b, mask);
            lemma_truncate_u8((self@.cart.rom_banks - 1) as usize);
        }
        b & mask
    }

    pub fn write_byte(&mut self, index: u16, value: u8)
        requires
            old(self)@.wf(),
            mbc_address(index),
        ensures
            final(self)@ == old(self)@.write(index, value),
            final(self)@.wf(),
    {
        proof {
            lemma_and_bounds_u8(value, 0x03);
            lemma_and_bounds_u8(value & 0x03, (old(self)@.cart.ram_banks - 1) as u8);
        }
        if index <= 0x1FFF {
            if self.cartridge.get_ram_size() > 0 {
                self.external_ram_enabled = (value & 0x0F) == 0x0A;
            }
        } else if index <= 0x3FFF {
            let bank = if self.in_ram_banking_mode {
                value & 0x1F
            } else {
                (value & 0x1F) | (self.higher_rom_bank_bits << 5u8)
            };
            self.selected_rom_bank = self.fit_rom_bank(bank);
        } else if index <= 0x5FFF {
            if self.in_ram_banking_mode {
                self.selected_eram_bank = (value & 0x03) & ((self.cartridge.get_ram_banks() - 1) as u8);
            } else {
                self.higher_rom_bank_bits = value & 0x03;
                let bank = (self.selected_rom_bank & 0x1F) | (self.higher_rom_bank_bits << 5u8);
                self.selected_rom_bank = self.fit_rom_bank(bank);
            }
        } else if index <= 0x7FFF {
            if !(self.cartridge.get_ram_size() != 3 && value & 0x01 != 0) {
                self.in_ram_banking_mode = value & 0x01 != 0;
            }
        } else if self.external_ram_enabled {
            let selected_bank = if self.in_ram_banking_mode {
                self.selected_eram_bank as usize
            } else {
                0
            };
            let offset = selected_bank * 0x2000;
            let address = index as usize - 0xA000 + offset;
            self.cartridge.write_ram(address, value);
        }
    }

    pub fn get_cartridge(&self) -> (r: &Cartridge)
        ensures
            r@ == self@.cart,
    {
        &self.cartridge
    }

    /// Replaces the cartridge RAM with a saved image at least as long.
    pub fn set_cartridge_ram(&mut self, ram: Vec<u8>)
        requires
            old(self)@.wf(),
            ram@.len() >= old(self)@.cart.ram.len(),
        ensures
            final(self)@ == (Mbc1View { cart: CartridgeView { ram: ram@, ..old(self)@.cart }, ..old(self)@ }),
            final(self)@.wf(),
    {
        self.cartridge.set_ram(ram);
    }

    /// Records the clock registers and the time they were saved at.
    pub fn set_last_timestamp(&mut self, rtc: Rtc, last_time: u64)
        requires
            old(self)@.wf(),
        ensures
            final(self)@ == (Mbc1View { cart: CartridgeView { rtc, last_time, ..old(self)@.cart }, ..old(self)@ }),
            final(self)@.wf(),
    {
        self.cartridge.set_last_timestamp(rtc, last_time);
    }
}


/// A ROM bank count an MBC1 cartridge can have: a power of two up to 128.
pub open spec fn mbc1_bank_count(n: usize) -> bool {
    n == 2 || n == 4 || n == 8 || n == 16 || n == 32 || n == 64 || n == 128
}

proof fn lemma_mbc1_bank_number(v: u8, h: u8, n: u8)
    by (bit_vector)
    requires
        h <= 3,
        n == 2 || n == 4 || n == 8 || n == 16 || n == 32 || n == 64 || n == 128,
    ensures
        ({
            let b = (v & 0x1F) | (h << 5u8);
            let b2 = if b == 0x00 || b == 0x20 || b == 0x40 || b == 0x60 {
                (b + 1) as u8
            } else {
                b
            };
            b2 & ((n - 1) as u8) == ((if v % 32 == 0 {
                1
            } else {
                v % 32
            }) + 32 * h) % (n as int)
        }),
{
}

/// In ROM banking mode a write of `v` to 0x2000..=0x3FFF selects ROM bank
/// `low + 32 * high`, where `low` is the five low bits of `v` (0 standing for 1) and
/// `high` the two bits written to 0x4000..=0x5FFF, taken modulo the bank count; the
/// switchable area then reads that bank.
pub proof fn lemma_mbc1_rom_bank_select(m: Mbc1View, index: u16, v: u8, i: int)
    requires
        m.wf(),
        0x2000 <= index <= 0x3FFF,
        !m.in_ram_banking_mode,
        mbc1_bank_count(m.cart.rom_banks),
        0 <= i < 0x4000,
    ensures
        ({
            let low = if v % 32 == 0 {
                1
            } else {
                v % 32
            };
            let bank = (low + 32 * m.higher_rom_bank_bits) % (m.cart.rom_banks as int);
            &&& m.write(index, v).selected_rom_bank == bank
            &&& m.write(index, v).read((0x4000 + i) as u16) == m.cart.rom[bank * 0x4000 + i]
        }),
{
    lemma_mbc1_bank_number(v, m.higher_rom_bank_bits, m.cart.rom_banks as u8);
}

} // verus!
