use vstd::prelude::*;
use crate::emulator::traits::RTC;
use crate::mmu::cartridge::{Cartridge, CartridgeView, MbcType};
use crate::mmu::mbc1::{Mbc1, Mbc1View};
use crate::mmu::mbc2::{Mbc2, Mbc2View};
use crate::mmu::mbc3::{Mbc3, Mbc3View};
use crate::mmu::mbc5::{Mbc5, Mbc5View, mbc5_ram_fits};
use crate::mmu::rom_only::{RomOnly, mbc_address, rom_only_read, rom_only_write, rom_only_wf};
use crate::rtc::Rtc;

verus! {

/// The bank controller of the inserted cartridge.
pub enum Mbc {
    RomOnly(RomOnly),
    Mbc1(Mbc1),
    Mbc2(Mbc2),
    Mbc3(Mbc3),
    Mbc5(Mbc5),
}

pub enum MbcView {
    RomOnly(CartridgeView),
    Mbc1(Mbc1View),
    Mbc2(Mbc2View),
    Mbc3(Mbc3View),
    Mbc5(Mbc5View),
}

impl View for Mbc {
    type V = MbcView;

    open spec fn view(&self) -> MbcView {
        match self {
            Mbc::RomOnly(m) => MbcView::RomOnly(m@),
            Mbc::Mbc1(m) => MbcView::Mbc1(m@),
            Mbc::Mbc2(m) => MbcView::Mbc2(m@),
            Mbc::Mbc3(m) => MbcView::Mbc3(m@),
            Mbc::Mbc5(m) => MbcView::Mbc5(m@),
        }
    }
}

/// The cartridge can be driven by its controller without any access falling outside
/// the ROM image or the RAM: it announces a known RAM size, the image holds every bank
/// the header announces, and, for MBC5, every RAM bank that can be selected is allocated.
pub open spec fn cartridge_supported(c: CartridgeView) -> bool {
    &&& c.wf()
    &&& match c.mbc_type {
        MbcType::RomOnly => c.ram.len() >= 0x2000,
        MbcType::Mbc1 => c.ram.len() >= 0x8000,
        MbcType::Mbc3 => c.ram.len() >= 0x8000,
        MbcType::Mbc2 => true,
        MbcType::Mbc5 => mbc5_ram_fits(c),
    }
}

impl MbcView {
    /// The controller with the cartridge RAM replaced by `ram`.
    pub open spec fn with_cartridge_ram(self, ram: Seq<u8>) -> MbcView {
        match self {
            MbcView::RomOnly(c) => MbcView::RomOnly(CartridgeView { ram, ..c }),
            MbcView::Mbc1(m) => MbcView::Mbc1(Mbc1View { cart: CartridgeView { ram, ..m.cart }, ..m }),
            MbcView::Mbc2(m) => MbcView::Mbc2(Mbc2View { cart: CartridgeView { ram, ..m.cart }, ..m }),
            MbcView::Mbc3(m) => MbcView::Mbc3(Mbc3View { cart: CartridgeView { ram, ..m.cart }, ..m }),
            MbcView::Mbc5(m) => MbcView::Mbc5(Mbc5View { cart: CartridgeView { ram, ..m.cart }, ..m }),
        }
    }

    /// The controller with the cartridge's saved clock registers and time replaced.
    pub open spec fn with_timestamp(self, rtc: Rtc, last_time: u64) -> MbcView {
        match self {
            MbcView::RomOnly(c) => MbcView::RomOnly(CartridgeView { rtc, last_time, ..c }),
            MbcView::Mbc1(m) => MbcView::Mbc1(Mbc1View { cart: CartridgeView { rtc, last_time, ..m.cart }, ..m }),
            MbcView::Mbc2(m) => MbcView::Mbc2(Mbc2View { cart: CartridgeView { rtc, last_time, ..m.cart }, ..m }),
            MbcView::Mbc3(m) => MbcView::Mbc3(Mbc3View { cart: CartridgeView { rtc, last_time, ..m.cart }, ..m }),
            MbcView::Mbc5(m) => MbcView::Mbc5(Mbc5View { cart: CartridgeView { rtc, last_time, ..m.cart }, ..m }),
        }
    }

    pub open spec fn wf(self) -> bool {
        match self {
            MbcView::RomOnly(c) => rom_only_wf(c),
            MbcView::Mbc1(m) => m.wf(),
            MbcView::Mbc2(m) => m.wf(),
            MbcView::Mbc3(m) => m.wf(),
            MbcView::Mbc5(m) => m.wf(),
        }
    }

    pub open spec fn cartridge(self) -> CartridgeView {
        match self {
            MbcView::RomOnly(c) => c,
            MbcView::Mbc1(m) => m.cart,
            MbcView::Mbc2(m) => m.cart,
            MbcView::Mbc3(m) => m.cart,
            MbcView::Mbc5(m) => m.cart,
        }
    }

    pub open spec fn read(self, index: u16) -> u8 {
        match self {
            MbcView::RomOnly(c) => rom_only_read(c, index),
            MbcView::Mbc1(m) => m.read(index),
            MbcView::Mbc2(m) => m.read(index),
            MbcView::Mbc3(m) => m.read(index),
            MbcView::Mbc5(m) => m.read(index),
        }
    }

    /// The controller after a write; `now` is the wall-clock time, read only by a
    /// write that latches an MBC3 clock.
    pub open spec fn write_at(self, index: u16, value: u8, now: u64) -> MbcView {
        match self {
            MbcView::RomOnly(c) => MbcView::RomOnly(rom_only_write(c, index, value).0),
            MbcView::Mbc1(m) => MbcView::Mbc1(m.write(index, value)),
            MbcView::Mbc2(m) => MbcView::Mbc2(m.write(index, value)),
            MbcView::Mbc3(m) => MbcView::Mbc3(m.write_at(index, value, now)),
            MbcView::Mbc5(m) => MbcView::Mbc5(m.write(index, value)),
        }
    }

    /// The cartridge RAM byte a write changes and reports, if any: only cartridges
    /// without a controller and MBC3 cartridges report their RAM writes.
    pub open spec fn ram_change(self, index: u16, value: u8) -> Option<(usize, u8)> {
        match self {
            MbcView::RomOnly(c) => rom_only_write(c, index, value).1,
            MbcView::Mbc3(m) => m.ram_change(index, value),
            _ => None,
        }
    }
}

/// The controller that a cartridge's type calls for, as it starts: bank 1 selected
/// and RAM disabled. An MBC3 controller's clock is brought up to the wall-clock time
/// `now`, after `first_now` was taken as the last time when the cartridge had none.
pub open spec fn mbc_for(cart: CartridgeView, first_now: u64, now: u64) -> MbcView {
    match cart.mbc_type {
        MbcType::RomOnly => MbcView::RomOnly(cart),
        MbcType::Mbc1 => MbcView::Mbc1(
            Mbc1View {
                cart,
                selected_rom_bank: 1,
                selected_eram_bank: 0,
                in_ram_banking_mode: false,
                external_ram_enabled: false,
                higher_rom_bank_bits: 0,
            },
        ),
        MbcType::Mbc2 => MbcView::Mbc2(
            Mbc2View { cart, eram: Seq::new(0x200, |i: int| 0xFFu8), selected_rom_bank: 1, external_ram_enabled: false },
        ),
        MbcType::Mbc3 => MbcView::Mbc3(Mbc3::initial(cart, first_now, now)),
        MbcType::Mbc5 => MbcView::Mbc5(
            Mbc5View {
                cart,
                eram: Seq::new((cart.ram_size * 0x2000) as nat, |i: int| 0xFFu8),
                selected_rom_bank: 1,
                selected_rom_bank_high: 0,
                selected_eram_bank: 0,
                external_ram_enabled: false,
            },
        ),
    }
}

impl Mbc {
    /// The controller a supported cartridge calls for; an MBC3 controller reads the clock.
    pub fn from_cartridge(cartridge: Cartridge, rtc: Box<dyn RTC>) -> (r: Mbc)
        requires
            cartridge_supported(cartridge@),
        ensures
            r@.wf(),
            exists|first_now: u64, now: u64| r@ == #[trigger] mbc_for(cartridge@, first_now, now),
            r@.cartridge() == cartridge@ || r@ is Mbc3,
            cartridge@.mbc_type == MbcType::RomOnly ==> r@ == MbcView::RomOnly(cartridge@),
            cartridge@.mbc_type == MbcType::Mbc1 ==> r@ == MbcView::Mbc1(Mbc1View {
                cart: cartridge@,
                selected_rom_bank: 1,
                selected_eram_bank: 0,
                in_ram_banking_mode: false,
                external_ram_enabled: false,
                higher_rom_bank_bits: 0,
            }),
            cartridge@.mbc_type == MbcType::Mbc2 ==> r@ == MbcView::Mbc2(Mbc2View {
                cart: cartridge@,
                eram: Seq::new(0x200, |i: int| 0xFFu8),
                selected_rom_bank: 1,
                external_ram_enabled: false,
            }),
            cartridge@.mbc_type == MbcType::Mbc3 ==> exists|first_now: u64, now: u64|
                r@ == MbcView::Mbc3(#[trigger] Mbc3::initial(cartridge@, first_now, now)),
            cartridge@.mbc_type == MbcType::Mbc5 ==> r@ == MbcView::Mbc5(Mbc5View {
                cart: cartridge@,
                eram: Seq::new((cartridge@.ram_size * 0x2000) as nat, |i: int| 0xFFu8),
                selected_rom_bank: 1,
                selected_rom_bank_high: 0,
                selected_eram_bank: 0,
                external_ram_enabled: false,
            }),
    {
        let ghost c = cartridge@;
        match cartridge.get_mbc_type() {
            MbcType::RomOnly => {
                let r = Mbc::RomOnly(RomOnly::new(cartridge));
                assert(r@ == mbc_for(c, 0, 0));
                r
            },
            MbcType::Mbc1 => {
                let r = Mbc::Mbc1(Mbc1::new(cartridge));
                assert(r@ == mbc_for(c, 0, 0));
                r
            },
            MbcType::Mbc2 => {
                let r = Mbc::Mbc2(Mbc2::new(cartridge));
                assert(r@ == mbc_for(c, 0, 0));
                r
            },
            MbcType::Mbc3 => {
                let m = Mbc3::new(cartridge, rtc);
                proof {
                    let (a, b) = choose|a: u64, b: u64| m@ == Mbc3::initial(cartridge@, a, b);
                    assert(m@.wf()) by {
                        assert(m@ == Mbc3::initial(cartridge@, a, b));
                    }
                    assert(MbcView::Mbc3(m@) == mbc_for(cartridge@, a, b));
                }
                Mbc::Mbc3(m)
            },
            MbcType::Mbc5 => {
                let r = Mbc::Mbc5(Mbc5::new(cartridge));
                assert(r@ == mbc_for(c, 0, 0));
                r
            },
        }
    }

    pub fn read_byte(&self, index: u16) -> (r: u8)
        requires
            self@.wf(),
            mbc_address(index),
        ensures
            r == self@.read(index),
    {
        match self {
            Mbc::RomOnly(m) => m.read_byte(index),
            Mbc::Mbc1(m) => m.read_byte(index),
            Mbc::Mbc2(m) => m.read_byte(index),
            Mbc::Mbc3(m) => m.read_byte(index),
            Mbc::Mbc5(m) => m.read_byte(index),
        }
    }

    /// Writes to the controller; returns the cartridge RAM byte it reports changed.
    pub fn write_byte(&mut self, index: u16, value: u8) -> (r: Option<(usize, u8)>)
        requires
            old(self)@.wf(),
            mbc_address(index),
        ensures
            exists|now: u64| final(self)@ == old(self)@.write_at(index, value, now),
            r == old(self)@.ram_change(index, value),
            final(self)@.wf(),
    {
        match self {
            Mbc::RomOnly(m) => {
                let r = m.write_byte(index, value);
                assert(self@ == old(self)@.write_at(index, value, 0));
                r
            },
            Mbc::Mbc1(m) => {
                m.write_byte(index, value);
                assert(self@ == old(self)@.write_at(index, value, 0));
                None
            },
            Mbc::Mbc2(m) => {
                m.write_byte(index, value);
                assert(self@ == old(self)@.write_at(index, value, 0));
                None
            },
            Mbc::Mbc3(m) => {
                let r = m.write_byte(index, value);
                proof {
                    let now = choose|now: u64| m@ == old(self)@->Mbc3_0.write_at(index, value, now);
                    assert(self@ == old(self)@.write_at(index, value, now));
                }
                r
            },
            Mbc::Mbc5(m) => {
                m.write_byte(index, value);
                assert(self@ == old(self)@.write_at(index, value, 0));
                None
            },
        }
    }

    pub fn get_cartridge(&self) -> (r: &Cartridge)
        ensures
            r@ == self@.cartridge(),
    {
        match self {
            Mbc::RomOnly(m) => m.get_cartridge(),
            Mbc::Mbc1(m) => m.get_cartridge(),
            Mbc::Mbc2(m) => m.get_cartridge(),
            Mbc::Mbc3(m) => m.get_cartridge(),
            Mbc::Mbc5(m) => m.get_cartridge(),
        }
    }

    /// Replaces the cartridge RAM with a saved image at least as long.
    pub fn set_cartridge_ram(&mut self, ram: Vec<u8>)
        requires
            old(self)@.wf(),
            ram@.len() >= old(self)@.cartridge().ram.len(),
        ensures
            final(self)@ == old(self)@.with_cartridge_ram(ram@),
            final(self)@.wf(),
    {
        match self {
            Mbc::RomOnly(m) => m.set_cartridge_ram(ram),
            Mbc::Mbc1(m) => m.set_cartridge_ram(ram),
            Mbc::Mbc2(m) => m.set_cartridge_ram(ram),
            Mbc::Mbc3(m) => m.set_cartridge_ram(ram),
            Mbc::Mbc5(m) => m.set_cartridge_ram(ram),
        }
    }

    /// Records the clock registers and the time they were saved at.
    pub fn set_last_timestamp(&mut self, rtc: Rtc, last_time: u64)
        requires
            old(self)@.wf(),
        ensures
            final(self)@ == old(self)@.with_timestamp(rtc, last_time),
            final(self)@.wf(),
    {
        match self {
            Mbc::RomOnly(m) => m.set_last_timestamp(rtc, last_time),
            Mbc::Mbc1(m) => m.set_last_timestamp(rtc, last_time),
            Mbc::Mbc2(m) => m.set_last_timestamp(rtc, last_time),
            Mbc::Mbc3(m) => m.set_last_timestamp(rtc, last_time),
            Mbc::Mbc5(m) => m.set_last_timestamp(rtc, last_time),
        }
    }
}

/// Saved cartridge RAM put in place reads back whole, and nothing else of the
/// cartridge changes.
pub proof fn lemma_cartridge_ram_roundtrip(m: MbcView, ram: Seq<u8>)
    ensures
        m.with_cartridge_ram(ram).cartridge() == (CartridgeView { ram, ..m.cartridge() }),
{
}

/// Whether a cartridge can be driven by its controller (see `cartridge_supported`).
pub fn is_supported(cartridge: &Cartridge) -> (r: bool)
    ensures
        r == cartridge_supported(cartridge@),
{
    let ram_banks = cartridge.get_ram_banks();
    let ram_size = cartridge.get_ram_size();
    let rom_banks = cartridge.get_rom_banks();
    let rom_len = cartridge.get_rom().len();
    let ram_len = cartridge.get_ram().len();
    let wf = rom_banks >= 2 && rom_banks <= rom_len / 0x4000 && ram_size <= 4 && ram_banks == (if ram_size == 0 {
        0
    } else if ram_size <= 2 {
        1
    } else if ram_size == 3 {
        4
    } else {
        16
    });
    if !wf {
        return false;
    }
    match cartridge.get_mbc_type() {
        MbcType::RomOnly => ram_len >= 0x2000,
        MbcType::Mbc1 => ram_len >= 0x8000,
        MbcType::Mbc3 => ram_len >= 0x8000,
        MbcType::Mbc2 => true,
        MbcType::Mbc5 => ram_size == 0 || ram_banks <= ram_size,
    }
}

} // verus!
