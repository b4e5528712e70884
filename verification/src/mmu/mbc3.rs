use vstd::prelude::*;
use crate::bit_utils::{is_set, bit_set_spec, lemma_and_bounds_u8, lemma_and_bounds_u16, lemma_truncate_u8};
use crate::emulator::traits::RTC;
use crate::mmu::cartridge::{Cartridge, CartridgeView};
use crate::mmu::rom_only::mbc_address;
use crate::rtc::Rtc;

verus! {

/// The MBC3 controller: up to 2 MiB of ROM, 32 KiB of RAM and an optional
/// real-time clock that counts seconds, minutes, hours and 512 days.
pub struct Mbc3 {
    cartridge: Cartridge,
    selected_rom_bank: u8,
    selected_eram_bank: u8,
    external_ram_enabled: bool,
    rtc: Box<dyn RTC>,
    rtc_last_time: u64,
    rtc_last_time_cache: u64,
    rtc_register_select: u8,
    use_rtc_for_ram: bool,
    rtc_latch_data: u8,
    rtc_latch: Rtc,
    rtc_data: Rtc,
}

pub struct Mbc3View {
    pub cart: CartridgeView,
    pub selected_rom_bank: u8,
    pub selected_eram_bank: u8,
    pub external_ram_enabled: bool,
    pub rtc_last_time: u64,
    pub rtc_last_time_cache: u64,
    pub rtc_register_select: u8,
    pub use_rtc_for_ram: bool,
    pub rtc_latch_data: u8,
    pub rtc_latch: Rtc,
    pub rtc_data: Rtc,
}

impl View for Mbc3 {
    type V = Mbc3View;

    closed spec fn view(&self) -> Mbc3View {
        Mbc3View {
            cart: self.cartridge@,
            selected_rom_bank: self.selected_rom_bank,
            selected_eram_bank: self.selected_eram_bank,
            external_ram_enabled: self.external_ram_enabled,
            rtc_last_time: self.rtc_last_time,
            rtc_last_time_cache: self.rtc_last_time_cache,
            rtc_register_select: self.rtc_register_select,
            use_rtc_for_ram: self.use_rtc_for_ram,
            rtc_latch_data: self.rtc_latch_data,
            rtc_latch: self.rtc_latch,
            rtc_data: self.rtc_data,
        }
    }
}

/// Byte addition that wraps round past 0xFF.
pub open spec fn add_wrap_u8(x: u8, y: u8) -> u8 {
    if x + y > 0xFF {
        (x + y - 0x100) as u8
    } else {
        (x + y) as u8
    }
}

/// 16-bit addition that wraps round past 0xFFFF.
pub open spec fn add_wrap_u16(x: u16, y: u16) -> u16 {
    if x + y > 0xFFFF {
        (x + y - 0x10000) as u16
    } else {
        (x + y) as u16
    }
}

/// The clock registers after `elapsed` seconds have been added to them: the seconds,
/// minutes and hours each carry at most once into the next field, the day count runs
/// to 511, and passing it sets the day-carry bit (bit 7 of the high day register) and
/// clears bits 1..5 of that register.
pub open spec fn rtc_advanced(d: Rtc, elapsed: u64) -> Rtc {
    let s0 = add_wrap_u8(d.seconds, (elapsed % 60) as u8);
    let s1 = if s0 > 59 { (s0 - 60) as u8 } else { s0 };
    let m0 = if s0 > 59 { add_wrap_u8(d.minutes, 1) } else { d.minutes };
    let e1 = elapsed / 60;
    let m1 = add_wrap_u8(m0, (e1 % 60) as u8);
    let m2 = if m1 > 59 { (m1 - 60) as u8 } else { m1 };
    let h0 = if m1 > 59 { add_wrap_u8(d.hours, 1) } else { d.hours };
    let e2 = e1 / 60;
    let h1 = add_wrap_u8(h0, (e2 % 24) as u8);
    let h2 = if h1 > 23 { (h1 - 24) as u8 } else { h1 };
    let days0: u16 = if h1 > 23 { 1 } else { 0 };
    let e3 = e2 / 24;
    let days1 = (days0 + d.days_low + ((d.days_high as u16) & 0x01)) as u16;
    let days2 = add_wrap_u16(days1, e3 as u16);
    let days3 = if days2 > 511 { days2 % 512 } else { days2 };
    let high0 = if days2 > 511 { (d.days_high | 0x80) & 0xC0 } else { d.days_high };
    Rtc {
        seconds: s1,
        minutes: m2,
        hours: h2,
        days_low: (days3 & 0xFF) as u8,
        days_high: high0 | ((days3 & 0x100) >> 8u16) as u8,
    }
}

impl Mbc3View {
    pub open spec fn wf(self) -> bool {
        &&& self.cart.wf()
        &&& self.cart.ram.len() >= 0x8000
        &&& (self.selected_rom_bank as usize) < self.cart.rom_banks
        &&& self.selected_eram_bank <= 3
    }

    /// The clock brought up to `now`: unless the clock is halted (bit 6 of the high day
    /// register) or `now` is the time last seen, the seconds since the last update are
    /// added to the registers; either way the cartridge records the registers and the
    /// time of the last update.
    pub open spec fn rtc_updated(self, now: u64) -> Mbc3View {
        let running = !bit_set_spec(self.rtc_data.days_high, 6) && self.rtc_last_time_cache != now;
        let elapsed = if now >= self.rtc_last_time {
            (now - self.rtc_last_time) as u64
        } else {
            (now - self.rtc_last_time + 0x1_0000_0000_0000_0000) as u64
        };
        let data = if running && elapsed > 0 {
            rtc_advanced(self.rtc_data, elapsed)
        } else {
            self.rtc_data
        };
        let last = if running { now } else { self.rtc_last_time };
        let cache = if running { now } else { self.rtc_last_time_cache };
        Mbc3View {
            rtc_data: data,
            rtc_last_time: last,
            rtc_last_time_cache: cache,
            cart: CartridgeView { rtc: data, last_time: last, ..self.cart },
            ..self
        }
    }

    pub open spec fn read(self, index: u16) -> u8 {
        if index <= 0x3FFF {
            self.cart.rom[index as int]
        } else if index <= 0x7FFF {
            self.cart.rom[index - 0x4000 + self.selected_rom_bank * 0x4000]
        } else if self.use_rtc_for_ram && self.external_ram_enabled && self.cart.has_rtc {
            if self.rtc_register_select == 0x08 {
                self.rtc_latch.seconds
            } else if self.rtc_register_select == 0x09 {
                self.rtc_latch.minutes
            } else if self.rtc_register_select == 0x0A {
                self.rtc_latch.hours
            } else if self.rtc_register_select == 0x0B {
                self.rtc_latch.days_low
            } else if self.rtc_register_select == 0x0C {
                self.rtc_latch.days_high
            } else {
                0xFF
            }
        } else if self.external_ram_enabled && self.cart.ram_size > 0 {
            self.cart.ram[index - 0xA000 + self.selected_eram_bank * 0x2000]
        } else {
            0xFF
        }
    }

    /// A write that latches the clock (0x00 then 0x01 to 0x6000..=0x7FFF on a cartridge
    /// with a clock).
    pub open spec fn latches(self, index: u16, value: u8) -> bool {
        0x6000 <= index <= 0x7FFF && self.cart.has_rtc && self.rtc_latch_data == 0 && value == 1
    }

    /// The controller after a write, where `now` is the wall-clock time read when the
    /// write latches the clock (it is not read otherwise).
    pub open spec fn write_at(self, index: u16, value: u8, now: u64) -> Mbc3View {
        if index <= 0x1FFF {
            Mbc3View { external_ram_enabled: value & 0x0F == 0x0A, ..self }
        } else if index <= 0x3FFF {
            let b = if value & 0x7F == 0 {
                1u8
            } else {
                value & 0x7F
            };
            Mbc3View { selected_rom_bank: b & ((self.cart.rom_banks - 1) as u8), ..self }
        } else if index <= 0x5FFF {
            if value <= 0x03 {
                Mbc3View {
                    selected_eram_bank: value & (if self.cart.ram_banks == 0 {
                        0xFFu8
                    } else {
                        (self.cart.ram_banks - 1) as u8
                    }),
                    use_rtc_for_ram: false,
                    ..self
                }
            } else if 0x08 <= value <= 0x0C && self.cart.has_rtc && self.external_ram_enabled {
                Mbc3View { rtc_register_select: value, use_rtc_for_ram: true, ..self }
            } else {
                self
            }
        } else if index <= 0x7FFF {
            if self.cart.has_rtc {
                if self.rtc_latch_data == 0 && value == 1 {
                    let u = self.rtc_updated(now);
                    Mbc3View { rtc_latch: u.rtc_data, rtc_latch_data: value, ..u }
                } else {
                    Mbc3View { rtc_latch_data: value, ..self }
                }
            } else {
                self
            }
        } else if self.use_rtc_for_ram && self.external_ram_enabled && self.cart.has_rtc {
            let d = self.rtc_data;
            if self.rtc_register_select == 0x08 {
                Mbc3View { rtc_data: Rtc { seconds: value, ..d }, ..self }
            } else if self.rtc_register_select == 0x09 {
                Mbc3View { rtc_data: Rtc { minutes: value, ..d }, ..self }
            } else if self.rtc_register_select == 0x0A {
                Mbc3View { rtc_data: Rtc { hours: value, ..d }, ..self }
            } else if self.rtc_register_select == 0x0B {
                Mbc3View { rtc_data: Rtc { days_low: value, ..d }, ..self }
            } else if self.rtc_register_select == 0x0C {
                Mbc3View { rtc_data: Rtc { days_high: (d.days_high & 0x80) | (value & 0xC1), ..d }, ..self }
            } else {
                self
            }
        } else if self.external_ram_enabled && self.cart.ram_size > 0 {
            Mbc3View {
                cart: CartridgeView {
                    ram: self.cart.ram.update(index - 0xA000 + self.selected_eram_bank * 0x2000, value),
                    ..self.cart
                },
                ..self
            }
        } else {
            self
        }
    }

    /// The cartridge RAM byte a write changes, if any.
    pub open spec fn ram_change(self, index: u16, value: u8) -> Option<(usize, u8)> {
        if 0xA000 <= index <= 0xBFFF && !(self.use_rtc_for_ram && self.external_ram_enabled && self.cart.has_rtc)
            && self.external_ram_enabled && self.cart.ram_size > 0 {
            Some(((index - 0xA000 + self.selected_eram_bank * 0x2000) as usize, value))
        } else {
            None
        }
    }
}

impl Mbc3 {
    /// The controller as a cartridge is inserted: the clock registers are taken from
    /// the cartridge, the time of the last update too unless it is zero (then `first_now`,
    /// the time the clock is first read, stands in), and the clock is brought up to
    /// `now`, read a moment later.
    pub open spec fn initial(cart: CartridgeView, first_now: u64, now: u64) -> Mbc3View {
        let last = if cart.last_time == 0 { first_now } else { cart.last_time };
        Mbc3View {
            cart,
            selected_rom_bank: 1,
            selected_eram_bank: 0,
            external_ram_enabled: false,
            rtc_last_time: last,
            rtc_last_time_cache: last,
            rtc_register_select: 0,
            use_rtc_for_ram: false,
            rtc_latch_data: 0,
            rtc_latch: cart.rtc,
            rtc_data: cart.rtc,
        }.rtc_updated(now)
    }

    pub fn new(cartridge: Cartridge, rtc: Box<dyn RTC>) -> (r: Mbc3)
        ensures
            exists|first_now: u64, now: u64| r@ == Mbc3::initial(cartridge@, first_now, now),
    {
        let (rtc_data, mut rtc_last_time) = cartridge.get_last_timestamp();
        let ghost first_now = rtc_last_time;
        if rtc_last_time == 0 {
            rtc_last_time = rtc.get_current_time();
            proof {
                first_now = rtc_last_time;
            }
        }
        let mut mbc3 = Mbc3 {
            cartridge,
            selected_rom_bank: 1,
            selected_eram_bank: 0,
            external_ram_enabled: false,
            rtc,
            rtc_last_time,
            rtc_last_time_cache: rtc_last_time,
            use_rtc_for_ram: false,
            rtc_register_select: 0,
            rtc_latch_data: 0,
            rtc_data,
            rtc_latch: rtc_data,
        };
        let now = mbc3.update_rtc_latch();
        assert(mbc3@ == Mbc3::initial(cartridge@, first_now, now));
        mbc3
    }

    /// Reads the wall clock and brings the clock registers up to it; returns the time read.
    fn update_rtc_latch(&mut self) -> (now: u64)
        ensures
            final(self)@ == old(self)@.rtc_updated(now),
    {
        let now = self.rtc.get_current_time();
        self.update_rtc_at(now);
        now
    }

    /// Brings the clock registers up to the time `now` (see `Mbc3View::rtc_updated`).
    pub fn update_rtc_at(&mut self, now: u64)
        ensures
            final(self)@ == old(self)@.rtc_updated(now),
    {
        if !is_set(self.rtc_data.days_high, 6) && self.rtc_last_time_cache != now {
            self.rtc_last_time_cache = now;
            let mut difference = now.wrapping_sub(self.rtc_last_time);
            self.rtc_last_time = now;
            if difference > 0 {
                self.rtc_data = Mbc3::advance(self.rtc_data, difference);
            }
        }
        self.cartridge.set_last_timestamp(self.rtc_data, self.rtc_last_time);
    }

    /// Adds `difference` seconds to the clock registers (see `rtc_advanced`).
    pub fn advance(data: Rtc, difference: u64) -> (r: Rtc)
        ensures
            r == rtc_advanced(data, difference),
    {
        let mut d = data;
        let mut difference = difference;
        d.seconds = d.seconds.wrapping_add((difference % 60) as u8);
        if d.seconds > 59 {
            d.seconds -= 60;
            d.minutes = d.minutes.wrapping_add(1);
        }
        difference /= 60;
        d.minutes = d.minutes.wrapping_add((difference % 60) as u8);
        if d.minutes > 59 {
            d.minutes -= 60;
            d.hours = d.hours.wrapping_add(1);
        }
        difference /= 60;
        d.hours = d.hours.wrapping_add((difference % 24) as u8);
        let mut rtc_days: u16 = 0;
        if d.hours > 23 {
            d.hours -= 24;
            rtc_days += 1;
        }
        difference /= 24;
        proof {
            lemma_and_bounds_u16(d.days_high as u16, 0x01);
        }
        rtc_days += d.days_low as u16 + ((d.days_high as u16) & 0x01);
        rtc_days = rtc_days.wrapping_add(difference as u16);
        if rtc_days > 511 {
            rtc_days %= 512;
            d.days_high |= 0x80;
            d.days_high &= 0xC0;
        }
        d.days_low = (rtc_days & 0xFF) as u8;
        d.days_high |= ((rtc_days & 0x100) >> 8u16) as u8;
        d
    }

    pub fn read_byte(&self, index: u16) -> (r: u8)
        requires
            self@.wf(),
            mbc_address(index),
        ensures
            r == self@.read(index),
    {
        if index <= 0x3FFF {
            self.cartridge.read_rom(index as usize)
        } else if index <= 0x7FFF {
            let offset = self.selected_rom_bank as usize * 0x4000;
            self.cartridge.read_rom(index as usize - 0x4000 + offset)
        } else if self.use_rtc_for_ram && self.external_ram_enabled && self.cartridge.has_rtc() {
            if self.rtc_register_select == 0x08 {
                self.rtc_latch.seconds
            } else if self.rtc_register_select == 0x09 {
                self.rtc_latch.minutes
            } else if self.rtc_register_select == 0x0A {
                self.rtc_latch.hours
            } else if self.rtc_register_select == 0x0B {
                self.rtc_latch.days_low
            } else if self.rtc_register_select == 0x0C {
                self.rtc_latch.days_high
            } else {
                0xFF
            }
        } else if self.external_ram_enabled && self.cartridge.get_ram_size() > 0 {
            let offset = self.selected_eram_bank as usize * 0x2000;
            self.cartridge.read_ram(index as usize - 0xA000 + offset)
        } else {
            0xFF
        }
    }

    /// Writes to the controller; returns the cartridge RAM byte that changed, if any.
    pub fn write_byte(&mut self, index: u16, value: u8) -> (r: Option<(usize, u8)>)
        requires
            old(self)@.wf(),
            mbc_address(index),
        ensures
            exists|now: u64| final(self)@ == old(self)@.write_at(index, value, now),
            r == old(self)@.ram_change(index, value),
            final(self)@.wf(),
    {
        if index <= 0x1FFF {
            self.external_ram_enabled = (value & 0x0F) == 0x0A;
            assert(self@ == old(self)@.write_at(index, value, 0));
            None
        } else if index <= 0x3FFF {
            self.selected_rom_bank = value & 0x7F;
            if self.selected_rom_bank == 0 {
                self.selected_rom_bank = 1;
            }
            let mask = (self.cartridge.get_rom_banks() - 1) as u8;
            proof {
                lemma_and_bounds_u8(self.selected_rom_bank, mask);
                lemma_truncate_u8((self@.cart.rom_banks - 1) as usize);
            }
            self.selected_rom_bank &= mask;
            assert(self@ == old(self)@.write_at(index, value, 0));
            None
        } else if index <= 0x5FFF {
            if value <= 0x03 {
                let mask = if self.cartridge.get_ram_banks() == 0 {
                    0xFFu8
                } else {
                    (self.cartridge.get_ram_banks() - 1) as u8
                };
                proof {
                    lemma_and_bounds_u8(value, mask);
                }
                self.selected_eram_bank = value & mask;
                self.use_rtc_for_ram = false;
            } else if 0x08 <= value && value <= 0x0C {
                if self.cartridge.has_rtc() && self.external_ram_enabled {
                    self.rtc_register_select = value;
                    self.use_rtc_for_ram = true;
                }
            }
            assert(self@ == old(self)@.write_at(index, value, 0));
            None
        } else if index <= 0x7FFF {
            if self.cartridge.has_rtc() {
                if self.rtc_latch_data == 0 && value == 1 {
                    let now = self.update_rtc_latch();
                    self.rtc_latch.seconds = self.rtc_data.seconds;
                    self.rtc_latch.minutes = self.rtc_data.minutes;
                    self.rtc_latch.hours = self.rtc_data.hours;
                    self.rtc_latch.days_low = self.rtc_data.days_low;
                    self.rtc_latch.days_high = self.rtc_data.days_high;
                    self.rtc_latch_data = value;
                    assert(self@ == old(self)@.write_at(index, value, now));
                } else {
                    self.rtc_latch_data = value;
                    assert(self@ == old(self)@.write_at(index, value, 0));
                }
            } else {
                assert(self@ == old(self)@.write_at(index, value, 0));
            }
            None
        } else if self.use_rtc_for_ram && self.external_ram_enabled && self.cartridge.has_rtc() {
            if self.rtc_register_select == 0x08 {
                self.rtc_data.seconds = value;
            } else if self.rtc_register_select == 0x09 {
                self.rtc_data.minutes = value;
            } else if self.rtc_register_select == 0x0A {
                self.rtc_data.hours = value;
            } else if self.rtc_register_select == 0x0B {
                self.rtc_data.days_low = value;
            } else if self.rtc_register_select == 0x0C {
                self.rtc_data.days_high = (self.rtc_data.days_high & 0x80) | (value & 0xC1);
            }
            assert(self@ == old(self)@.write_at(index, value, 0));
            None
        } else if self.external_ram_enabled && self.cartridge.get_ram_size() > 0 {
            let offset = self.selected_eram_bank as usize * 0x2000;
            let address = index as usize - 0xA000 + offset;
            self.cartridge.write_ram(address, value);
            assert(self@ == old(self)@.write_at(index, value, 0));
            Some((address, value))
        } else {
            assert(self@ == old(self)@.write_at(index, value, 0));
            None
        }
    }

    pub fn get_cartridge(&self) -> (r: &Cartridge)
        ensures
            r@ == self@.cart,
    {
        &self.cartridge
    }

    /// Replaces the cartridge RAM with a saved image at least as long.
    pub fn set_cartridge_ram(&mut self, ram: Vec<u8>)
        requires
            old(self)@.wf(),
            ram@.len() >= old(self)@.cart.ram.len(),
        ensures
            final(self)@ == (Mbc3View { cart: CartridgeView { ram: ram@, ..old(self)@.cart }, ..old(self)@ }),
            final(self)@.wf(),
    {
        self.cartridge.set_ram(ram);
    }

    /// Records the clock registers and the time they were saved at.
    pub fn set_last_timestamp(&mut self, rtc: Rtc, last_time: u64)
        requires
            old(self)@.wf(),
        ensures
            final(self)@ == (Mbc3View { cart: CartridgeView { rtc, last_time, ..old(self)@.cart }, ..old(self)@ }),
            final(self)@.wf(),
    {
        self.cartridge.set_last_timestamp(rtc, last_time);
    }
}

} // verus!
