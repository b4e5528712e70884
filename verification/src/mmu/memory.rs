use vstd::prelude::*;
use crate::bit_utils::{is_set, set_bit, unset_bit, bit_set_spec, with_bit_spec, without_bit_spec, lemma_and_bounds_u8};
use crate::cpu::registers::{pair, low_byte, high_byte, lemma_pair_bytes};
use crate::emulator::traits::RTC;
use crate::gpu::cgb_color::CGBColor;
use crate::mmu::cartridge::{Cartridge, CartridgeView, lemma_smear_one};
use crate::mmu::gpu_cycles::GpuCycles;
use crate::mmu::interrupt::Interrupt;
use crate::mmu::io_init::{io_initial, io_initial_values};
use crate::mmu::mbc::{Mbc, MbcView, cartridge_supported, mbc_for};
use crate::mmu::rom_only::{RomOnly, mbc_address};
use crate::sound::{Sound, SoundView, sound_readable};
use crate::rtc::Rtc;

verus! {

pub const SPRITES_START_INDEX: u16 = 0xFE00;
pub const JOYPAD_INDEX: u16 = 0xFF00;
pub const DIVIDER_INDEX: u16 = 0xFF04;
pub const SELECTABLE_TIMER_INDEX: u16 = 0xFF05;
pub const TIMER_RESET_INDEX: u16 = 0xFF06;
pub const TIMER_CONTROL_INDEX: u16 = 0xFF07;
pub const INTERRUPT_FLAGS_INDEX: u16 = 0xFF0F;
pub const LCD_CONTROL_INDEX: u16 = 0xFF40;
pub const LCD_INDEX: u16 = 0xFF41;
pub const SCROLL_Y_INDEX: u16 = 0xFF42;
pub const SCROLL_X_INDEX: u16 = 0xFF43;
pub const LY_INDEX: u16 = 0xFF44;
pub const LYC_INDEX: u16 = 0xFF45;
pub const BACKGROUND_PALETTE_INDEX: u16 = 0xFF47;
pub const OBJECT_PALETTE_0_INDEX: u16 = 0xFF48;
pub const OBJECT_PALETTE_1_INDEX: u16 = 0xFF49;
pub const WINDOW_Y_INDEX: u16 = 0xFF4A;
pub const WINDOW_X_INDEX: u16 = 0xFF4B;
pub const VRAM_BANK_INDEX: u16 = 0xFF4F;
pub const CGB_BACKGROUND_PALETTE_INDEX_INDEX: u16 = 0xFF68;
pub const CGB_BACKGROUND_PALETTE_DATA_INDEX: u16 = 0xFF69;
pub const CGB_SPRITE_PALETTE_INDEX_INDEX: u16 = 0xFF6A;
pub const CGB_SPRITE_PALETTE_DATA_INDEX: u16 = 0xFF6B;
pub const INTERRUPT_ENABLE_INDEX: u16 = 0xFFFF;

/// The memory map: cartridge, video RAM, work RAM, sprite attribute table, I/O
/// registers and high RAM, the audio unit, and the display state kept with them.
pub struct Memory {
    mbc: Mbc,
    wram: Vec<u8>,
    vram: Vec<u8>,
    oam: Vec<u8>,
    high_ram: Vec<u8>,
    joypad_state: u8,
    scan_line: u8,
    irq48_signal: u8,
    screen_disabled: bool,
    lcd_status_mode: u8,
    gpu_cycles: GpuCycles,
    div_cycles: i32,
    tima_cycles: i32,
    is_cgb: bool,
    vram_bank: i32,
    wram_bank: i32,
    hdma_source: u16,
    hdma_destination: u16,
    hdma_bytes: i32,
    hdma_enabled: bool,
    cgb_background_palettes: Vec<CGBColor>,
    cgb_sprite_palettes: Vec<CGBColor>,
    sound: Sound,
    ram_changes: Vec<(usize, u8)>,
}

#[verifier::ext_equal]
pub struct MemoryView {
    pub mbc: MbcView,
    pub wram: Seq<u8>,
    pub vram: Seq<u8>,
    pub oam: Seq<u8>,
    pub high_ram: Seq<u8>,
    pub joypad_state: u8,
    pub scan_line: u8,
    pub irq48_signal: u8,
    pub screen_disabled: bool,
    pub lcd_status_mode: u8,
    pub gpu_cycles: GpuCycles,
    pub div_cycles: i32,
    pub tima_cycles: i32,
    pub is_cgb: bool,
    pub vram_bank: i32,
    pub wram_bank: i32,
    pub hdma_source: u16,
    pub hdma_destination: u16,
    pub hdma_bytes: i32,
    pub hdma_enabled: bool,
    /// Eight palettes of four colors, palette-major.
    pub bg_palettes: Seq<CGBColor>,
    pub sprite_palettes: Seq<CGBColor>,
    pub sound: SoundView,
    /// Cartridge RAM writes reported and not yet taken.
    pub ram_changes: Seq<(usize, u8)>,
}

impl View for Memory {
    type V = MemoryView;

    closed spec fn view(&self) -> MemoryView {
        MemoryView {
            mbc: self.mbc@,
            wram: self.wram@,
            vram: self.vram@,
            oam: self.oam@,
            high_ram: self.high_ram@,
            joypad_state: self.joypad_state,
            scan_line: self.scan_line,
            irq48_signal: self.irq48_signal,
            screen_disabled: self.screen_disabled,
            lcd_status_mode: self.lcd_status_mode,
            gpu_cycles: self.gpu_cycles,
            div_cycles: self.div_cycles,
            tima_cycles: self.tima_cycles,
            is_cgb: self.is_cgb,
            vram_bank: self.vram_bank,
            wram_bank: self.wram_bank,
            hdma_source: self.hdma_source,
            hdma_destination: self.hdma_destination,
            hdma_bytes: self.hdma_bytes,
            hdma_enabled: self.hdma_enabled,
            bg_palettes: self.cgb_background_palettes@,
            sprite_palettes: self.cgb_sprite_palettes@,
            sound: self.sound@,
            ram_changes: self.ram_changes@,
        }
    }
}

/// The HDMA source the boot register values give on the color model (0 on the
/// monochrome model): HDMA1 (0x00 in 0x80..0xA0) and the top nibble of HDMA2.
pub open spec fn boot_hdma_source(is_cgb: bool) -> u16 {
    if is_cgb {
        let io = io_initial(true);
        let high = io[0x51];
        let high1 = if high > 0x7F && high < 0xA0 {
            0u8
        } else {
            high
        };
        ((high1 as u16) << 8u16) | ((io[0x52] as u16) & 0xF0)
    } else {
        0
    }
}

/// The HDMA destination the boot register values give on the color model (0 on the
/// monochrome model): in video RAM, from the low five bits of HDMA3 and the top
/// nibble of HDMA4.
pub open spec fn boot_hdma_destination(is_cgb: bool) -> u16 {
    if is_cgb {
        let io = io_initial(true);
        ((((io[0x53] as u16) & 0x1F) << 8u16) | ((io[0x54] as u16) & 0xF0)) | 0x8000
    } else {
        0
    }
}

impl MemoryView {
    /// The memory map as the boot program leaves it around controller `mbc`: I/O
    /// registers at their boot values, the sound unit given those of 0xFF10..=0xFF3F
    /// in order, the HDMA registers those values give, all palette colors black,
    /// LY 144 in vertical blank with the screen on,
    /// video RAM bank 0 and work RAM bank 1 selected, no HDMA transfer, the timer
    /// and joypad counters at zero, work RAM, video RAM and the sprite table
    /// cleared, and no cartridge RAM writes reported.
    pub open spec fn booted(self, mbc: MbcView, is_cgb: bool) -> bool {
        &&& self.wf()
        &&& self.mbc == mbc
        &&& self.is_cgb == is_cgb
        &&& self.high_ram == io_initial(is_cgb)
        &&& self.scan_line == 144
        &&& self.lcd_status_mode == 1
        &&& !self.screen_disabled
        &&& self.vram_bank == 0
        &&& self.wram_bank == 1
        &&& !self.hdma_enabled
        &&& self.div_cycles == 0
        &&& self.tima_cycles == 0
        &&& self.joypad_state == 0
        &&& self.ram_changes.len() == 0
        &&& self.sound == SoundView::initial().written_from(0xFF10, io_initial(is_cgb))
        &&& self.hdma_source == boot_hdma_source(is_cgb)
        &&& self.hdma_destination == boot_hdma_destination(is_cgb)
        &&& self.hdma_bytes == 0
        &&& self.irq48_signal == 0
        &&& self.gpu_cycles == (GpuCycles {
            cycles_counter: 0,
            aux_cycles_counter: 0,
            pixel_counter: 0,
            screen_enable_delay_cycles: 0,
            window_line: 0,
        })
        &&& self.bg_palettes == Seq::new(32, |k: int| CGBColor { red: 0, green: 0, blue: 0 })
        &&& self.sprite_palettes == Seq::new(32, |k: int| CGBColor { red: 0, green: 0, blue: 0 })
        &&& forall|k: int| 0 <= k < self.wram.len() ==> self.wram[k] == 0
        &&& forall|k: int| 0 <= k < self.vram.len() ==> self.vram[k] == 0
        &&& forall|k: int| 0 <= k < 0x100 ==> self.oam[k] == 0
    }
}

/// The addresses whose reads are answered: all but 0xFF27..=0xFF3F, which the audio
/// unit does not answer.
pub open spec fn readable(index: u16) -> bool {
    !(0xFF27 <= index <= 0xFF3F)
}

/// Every address of `n` consecutive ones from `start` (wrapping past 0xFFFF) is readable.
pub open spec fn range_readable(start: u16, n: int) -> bool {
    forall|k: int| 0 <= k < n ==> #[trigger] readable(add16(start, k))
}

/// 16-bit addition that wraps round past 0xFFFF.
pub open spec fn add16(x: u16, y: int) -> u16 {
    if x + y > 0xFFFF {
        (x + y - 0x10000) as u16
    } else {
        (x + y) as u16
    }
}

impl MemoryView {
    pub open spec fn wf(self) -> bool {
        &&& self.mbc.wf()
        &&& self.wram.len() == (if self.is_cgb { 0x8000int } else { 0x2000int })
        &&& self.vram.len() == (if self.is_cgb { 0x4000int } else { 0x2000int })
        &&& self.oam.len() == 0x100
        &&& self.high_ram.len() == 0x100
        &&& 0 <= self.vram_bank
        &&& self.vram_bank * 0x2000 + 0x2000 <= self.vram.len()
        &&& 1 <= self.wram_bank
        &&& self.wram_bank * 0x1000 + 0x1000 <= self.wram.len()
        &&& self.bg_palettes.len() == 32
        &&& self.sprite_palettes.len() == 32
        &&& self.sound.wf()
        &&& 0 <= self.hdma_bytes <= 0x800
        &&& 0 <= self.div_cycles < 256
        &&& 0 <= self.tima_cycles < 1024
    }

    /// An I/O register or high-RAM byte, as stored.
    pub open spec fn load(self, index: u16) -> u8 {
        self.high_ram[index - 0xFF00]
    }

    pub open spec fn stored(self, index: u16, value: u8) -> MemoryView {
        MemoryView { high_ram: self.high_ram.update(index - 0xFF00, value), ..self }
    }

    /// The interrupt-flag register with the bit of interrupt `bit` raised.
    pub open spec fn interrupt_requested(self, bit: u8) -> MemoryView {
        self.stored(0xFF0F, with_bit_spec(self.load(0xFF0F) | 0xE0, bit) & 0x1F)
    }

    /// The interrupt-flag register with the bit of interrupt `bit` cleared.
    pub open spec fn interrupt_removed(self, bit: u8) -> MemoryView {
        self.stored(0xFF0F, without_bit_spec(self.load(0xFF0F) | 0xE0, bit) & 0x1F)
    }

    pub open spec fn action_keys_enabled(self) -> bool {
        self.load(0xFF00) & 0x30 != 0x20
    }

    pub open spec fn direction_keys_enabled(self) -> bool {
        self.load(0xFF00) & 0x30 != 0x10
    }

    /// The joypad register: the selected half of the button state under the select bits.
    pub open spec fn joypad_read(self) -> u8 {
        let control = self.load(0xFF00);
        if self.direction_keys_enabled() {
            (control & 0xF0) | (self.joypad_state & 0x0F)
        } else if self.action_keys_enabled() {
            (control & 0xF0) | (self.joypad_state >> 4u8)
        } else {
            control
        }
    }

    pub open spec fn vram_index(self, index: u16) -> int {
        index - 0x8000 + 0x2000 * self.vram_bank
    }

    /// Where a work-RAM address 0xC000..=0xDFFF lies: bank 0 below 0xD000 and the
    /// selected bank above.
    pub open spec fn wram_index(self, index: u16) -> int {
        if index <= 0xCFFF {
            index - 0xC000
        } else {
            index - 0xD000 + 0x1000 * self.wram_bank
        }
    }

    /// An I/O register as read: unused bits read as one, LY reads as zero while the
    /// screen is off, and the color palette registers read as set on the monochrome model.
    pub open spec fn io_read(self, index: u16) -> u8 {
        if index == 0xFF00 {
            self.joypad_read()
        } else if index == 0xFF07 {
            self.load(index) | 0xF8
        } else if index == 0xFF0F {
            self.load(index) | 0xE0
        } else if 0xFF10 <= index <= 0xFF3F {
            self.sound.read(index)
        } else if index == 0xFF41 {
            self.load(index) | 0x80
        } else if index == 0xFF44 {
            if !self.screen_disabled {
                self.scan_line
            } else {
                0x00
            }
        } else if index == 0xFF68 || index == 0xFF6A {
            if self.is_cgb {
                self.load(index) | 0x40
            } else {
                0xC0
            }
        } else if index == 0xFF69 || index == 0xFF6B {
            if self.is_cgb {
                self.load(index) | 0xF8
            } else {
                0xFF
            }
        } else {
            self.load(index)
        }
    }

    /// A byte of the address space as the processor reads it.
    #[verifier::opaque]
    pub open spec fn read(self, index: u16) -> u8 {
        if index <= 0x7FFF || (0xA000 <= index <= 0xBFFF) {
            self.mbc.read(index)
        } else if index <= 0x9FFF {
            self.vram[self.vram_index(index)]
        } else if index <= 0xDFFF {
            self.wram[self.wram_index(index)]
        } else if index <= 0xFDFF {
            self.wram[self.wram_index((index - 0x2000) as u16)]
        } else if index <= 0xFEFF {
            self.oam[index - 0xFE00]
        } else {
            self.io_read(index)
        }
    }

    /// A little-endian word as the processor reads it.
    pub open spec fn read_word(self, index: u16) -> u16 {
        pair(self.read(add16(index, 1)), self.read(index))
    }

    /// The memory after a write below 0xFE00: cartridge, video RAM, work RAM and its
    /// echo. `now` is the wall-clock time, read only by a write that latches a clock.
    pub open spec fn write_low(self, index: u16, value: u8, now: u64) -> MemoryView {
        if index <= 0x7FFF || (0xA000 <= index <= 0xBFFF) {
            MemoryView {
                mbc: self.mbc.write_at(index, value, now),
                ram_changes: match self.mbc.ram_change(index, value) {
                    Some(c) => self.ram_changes.push(c),
                    None => self.ram_changes,
                },
                ..self
            }
        } else if index <= 0x9FFF {
            MemoryView { vram: self.vram.update(self.vram_index(index), value), ..self }
        } else if index <= 0xDFFF {
            MemoryView { wram: self.wram.update(self.wram_index(index), value), ..self }
        } else {
            MemoryView { wram: self.wram.update(self.wram_index((index - 0x2000) as u16), value), ..self }
        }
    }

    /// The display comparison of LY with LYC: while the screen is on, bit 2 of STAT
    /// records whether they are equal, and equality with the LYC interrupt enabled
    /// (STAT bit 6) requests an LCD interrupt unless one is already signalled.
    pub open spec fn ly_compared(self) -> MemoryView {
        if !self.screen_disabled {
            let lyc = self.load(0xFF45);
            let stat = self.load(0xFF41);
            if lyc == self.scan_line {
                let stat1 = with_bit_spec(stat, 2);
                let m = if bit_set_spec(stat1, 6) {
                    let m0 = if self.irq48_signal == 0 {
                        self.interrupt_requested(1)
                    } else {
                        self
                    };
                    MemoryView { irq48_signal: with_bit_spec(self.irq48_signal, 3), ..m0 }
                } else {
                    self
                };
                m.stored(0xFF41, stat1)
            } else {
                MemoryView {
                    irq48_signal: without_bit_spec(self.irq48_signal, 3),
                    ..self
                }.stored(0xFF41, without_bit_spec(stat, 2))
            }
        } else {
            self
        }
    }

    pub open spec fn screen_enabled(self) -> MemoryView {
        if self.screen_disabled {
            MemoryView {
                gpu_cycles: GpuCycles { screen_enable_delay_cycles: 244, ..self.gpu_cycles },
                ..self
            }
        } else {
            self
        }
    }

    /// The screen switched off: mode 0, counters and LY cleared, STAT mode bits cleared.
    pub open spec fn screen_turned_off(self) -> MemoryView {
        MemoryView {
            screen_disabled: true,
            lcd_status_mode: 0,
            gpu_cycles: GpuCycles { cycles_counter: 0, aux_cycles_counter: 0, ..self.gpu_cycles },
            scan_line: 0,
            irq48_signal: 0,
            ..self.stored(0xFF41, self.load(0xFF41) & 0x7C)
        }
    }

    pub open spec fn window_line_reset(self) -> MemoryView {
        let wy = self.load(0xFF4A);
        if self.gpu_cycles.window_line == 0 && self.scan_line < 144 && self.scan_line > wy {
            MemoryView { gpu_cycles: GpuCycles { window_line: 144, ..self.gpu_cycles }, ..self }
        } else {
            self
        }
    }

    /// A write to LCDC: turning the window on resets the window line, and bit 7
    /// switches the screen on or off.
    pub open spec fn lcd_control_written(self, value: u8) -> MemoryView {
        let current = self.load(0xFF40);
        let m0 = self.stored(0xFF40, value);
        let m1 = if current & 0x20 == 0 && value & 0x20 != 0 {
            m0.window_line_reset()
        } else {
            m0
        };
        if value & 0x80 != 0 {
            m1.screen_enabled()
        } else {
            m1.screen_turned_off()
        }
    }

    /// A write to STAT: bits 3..6 are written and bits 0..2 kept; with the screen on, an
    /// interrupt source enabled for the current mode requests an LCD interrupt unless
    /// one is already signalled, and LY is compared with LYC.
    pub open spec fn lcd_status_written(self, value: u8) -> MemoryView {
        let current = self.load(0xFF41) & 0x07;
        let new_stat = (value & 0x78) | (current & 0x07);
        let m0 = self.stored(0xFF41, new_stat);
        let signal = self.irq48_signal & ((new_stat >> 3u8) & 0x0F);
        let m1 = MemoryView { irq48_signal: signal, ..m0 };
        let mode = self.lcd_status_mode;
        if m1.load(0xFF40) & 0x80 != 0 {
            let c0 = bit_set_spec(new_stat, 3) && mode == 0;
            let m2 = if c0 && signal == 0 {
                m1.interrupt_requested(1)
            } else {
                m1
            };
            let s1 = if c0 {
                with_bit_spec(signal, 0)
            } else {
                signal
            };
            let c1 = bit_set_spec(new_stat, 4) && mode == 1;
            let m3 = if c1 && s1 == 0 {
                m2.interrupt_requested(1)
            } else {
                m2
            };
            let s2 = if c1 {
                with_bit_spec(s1, 1)
            } else {
                s1
            };
            let m4 = if bit_set_spec(new_stat, 5) && mode == 2 && s2 == 0 {
                m3.interrupt_requested(1)
            } else {
                m3
            };
            m4.ly_compared()
        } else {
            m1
        }
    }

    pub open spec fn scanline_written(self, value: u8) -> MemoryView {
        if bit_set_spec(self.scan_line, 7) && !bit_set_spec(value, 7) {
            self.screen_turned_off()
        } else {
            self
        }
    }

    pub open spec fn lyc_written(self, value: u8) -> MemoryView {
        if self.load(0xFF45) != value {
            let m = self.stored(0xFF45, value);
            if m.load(0xFF40) & 0x80 != 0 {
                m.ly_compared()
            } else {
                m
            }
        } else {
            self
        }
    }

    /// The sprite attribute table filled with the 160 bytes at `value` * 0x100, when
    /// that lies in 0x8000..0xE000.
    pub open spec fn dma_done(self, value: u8) -> MemoryView {
        let address = value as int * 0x100;
        if 0x8000 <= address < 0xE000 {
            MemoryView {
                oam: Seq::new(0x100, |k: int| if k < 0xA0 { self.read((address + k) as u16) } else { self.oam[k] }),
                ..self
            }
        } else {
            self
        }
    }

    /// The first `k` bytes of a general-purpose transfer copied, one after the other,
    /// from `src` (wrapping past 0xFFFF) to `dst`.
    pub open spec fn gdma_copied(self, src: u16, dst: u16, k: nat) -> MemoryView
        decreases k,
    {
        if k == 0 {
            self
        } else {
            let m = self.gdma_copied(src, dst, (k - 1) as nat);
            m.write_low((dst + k - 1) as u16, m.read(add16(src, k - 1)), 0)
        }
    }

    /// A general-purpose transfer of `hdma_bytes` bytes; afterwards the source and
    /// destination have advanced and the transfer registers read 0xFF.
    pub open spec fn gdma_done(self) -> MemoryView {
        let src = self.hdma_source & 0xFFF0;
        let dst = (self.hdma_destination & 0x1FF0) | 0x8000;
        let m = self.gdma_copied(src, dst, self.hdma_bytes as nat);
        let m1 = MemoryView {
            hdma_source: add16(m.hdma_source, self.hdma_bytes as int),
            hdma_destination: add16(m.hdma_destination, self.hdma_bytes as int),
            ..m
        };
        m1.stored(0xFF51, 0xFF).stored(0xFF52, 0xFF).stored(0xFF53, 0xFF).stored(0xFF54, 0xFF).stored(0xFF55, 0xFF)
    }

    /// One 16-byte block of an H-blank transfer; afterwards source and destination
    /// have advanced (the destination wraps from 0xA000 to 0x8000, the source jumps from
    /// 0x8000 to 0xA000), their registers hold them, the length register counts down and
    /// the transfer ends when it reads 0xFF.
    pub open spec fn hdma_done(self) -> MemoryView {
        let src = self.hdma_source & 0xFFF0;
        let dst = (self.hdma_destination & 0x1FF0) | 0x8000;
        let m = self.gdma_copied(src, dst, 0x10);
        let d0 = add16(m.hdma_destination, 0x10);
        let d = if d0 == 0xA000 { 0x8000u16 } else { d0 };
        let s0 = add16(m.hdma_source, 0x10);
        let s = if s0 == 0x8000 { 0xA000u16 } else { s0 };
        let m1 = MemoryView { hdma_source: s, hdma_destination: d, hdma_bytes: (m.hdma_bytes - 0x10) as i32, ..m };
        let m2 = m1.stored(0xFF51, high_byte(s)).stored(0xFF52, low_byte(s)).stored(0xFF53, high_byte(d)).stored(
            0xFF54,
            low_byte(d),
        );
        let len = (if m2.load(0xFF55) == 0 { 0xFFu8 } else { (m2.load(0xFF55) - 1) as u8 });
        let m3 = m2.stored(0xFF55, len);
        if len == 0xFF {
            MemoryView { hdma_enabled: false, ..m3 }
        } else {
            m3
        }
    }

    /// A write to HDMA5 (0xFF55) on the color model: starts a general-purpose transfer,
    /// starts an H-blank transfer (copying the first block at once in mode 0), or, while
    /// an H-blank transfer runs, either keeps it going or stops it.
    pub open spec fn cgb_dma_written(self, value: u8) -> MemoryView {
        let m = MemoryView { hdma_bytes: (16 + (value & 0x7F) * 16) as i32, ..self };
        if m.hdma_enabled {
            if bit_set_spec(value, 7) {
                m.stored(0xFF55, value & 0x7F)
            } else {
                MemoryView { hdma_enabled: false, ..m.stored(0xFF55, 0xFF) }
            }
        } else if bit_set_spec(value, 7) {
            let m1 = MemoryView { hdma_enabled: true, ..m }.stored(0xFF55, value & 0x7F);
            if m1.lcd_status_mode == 0 {
                m1.hdma_done()
            } else {
                m1
            }
        } else {
            m.gdma_done()
        }
    }

    /// A write to HDMA5 can be carried out: every address the transfer it starts reads
    /// from is readable.
    pub open spec fn cgb_dma_ok(self, value: u8) -> bool {
        let src = self.hdma_source & 0xFFF0;
        if self.hdma_enabled {
            true
        } else if bit_set_spec(value, 7) {
            self.lcd_status_mode != 0 || range_readable(src, 0x10)
        } else {
            range_readable(src, 16 + (value & 0x7F) * 16)
        }
    }

    /// The palette data register refreshed from the color the index register points at.
    pub open spec fn palette_data_refreshed(self, background: bool, value: u8) -> MemoryView {
        let hl = bit_set_spec(value, 0);
        let index = (value >> 1u8) & 0x03;
        let pal = (value >> 3u8) & 0x07;
        let color = if background {
            self.bg_palettes[pal * 4 + index]
        } else {
            self.sprite_palettes[pal * 4 + index]
        };
        let data = if hl {
            (((color.blue & 0x1F) << 2u8) | ((color.green >> 3u8) & 0x03)) & 0x7F
        } else {
            (color.red & 0x1F) | ((color.green & 0x07) << 5u8)
        };
        self.stored(if background { 0xFF69u16 } else { 0xFF6Bu16 }, data)
    }

    /// A write to a palette data register: the index register advances when its bit 7
    /// is set, and the low or high half of the addressed color takes the value.
    pub open spec fn palette_data_written(self, background: bool, value: u8) -> MemoryView {
        let ps = self.load(if background { 0xFF68u16 } else { 0xFF6Au16 });
        let hl = bit_set_spec(ps, 0);
        let index = (ps >> 1u8) & 0x03;
        let pal = (ps >> 3u8) & 0x07;
        let m = if bit_set_spec(ps, 7) {
            let ps1 = (ps & 0x80) | ((((ps & 0x3F) + 1) as u8) & 0x3F);
            self.stored(if background { 0xFF68u16 } else { 0xFF6Au16 }, ps1).palette_data_refreshed(background, ps1)
        } else {
            self
        };
        let k = pal * 4 + index;
        let old_color = if background { m.bg_palettes[k] } else { m.sprite_palettes[k] };
        let color = if hl {
            CGBColor { blue: (value >> 2u8) & 0x1F, green: (old_color.green & 0x07) | ((value & 0x03) << 3u8), ..old_color }
        } else {
            CGBColor { red: value & 0x1F, green: (old_color.green & 0x18) | ((value >> 5u8) & 0x07), ..old_color }
        };
        if background {
            MemoryView { bg_palettes: m.bg_palettes.update(k, color), ..m }
        } else {
            MemoryView { sprite_palettes: m.sprite_palettes.update(k, color), ..m }
        }
    }

    /// A write to an I/O register or high RAM (0xFF00..=0xFFFF).
    pub open spec fn io_written(self, index: u16, value: u8) -> MemoryView {
        if index == 0xFF04 {
            self.stored(index, 0)
        } else if index == 0xFF0F || index == 0xFFFF {
            self.stored(index, value & 0x1F)
        } else if 0xFF10 <= index <= 0xFF3F {
            MemoryView { sound: self.sound.write(index, value), ..self }
        } else if index == 0xFF40 {
            self.lcd_control_written(value)
        } else if index == 0xFF41 {
            self.lcd_status_written(value)
        } else if index == 0xFF44 {
            self.scanline_written(value)
        } else if index == 0xFF45 {
            self.lyc_written(value)
        } else if index == 0xFF46 {
            self.stored(index, value).dma_done(value)
        } else if index == 0xFF4D && self.is_cgb {
            self.stored(index, (self.load(index) & 0x80) | (value & 1) | 0x7E)
        } else if index == 0xFF4F && self.is_cgb {
            MemoryView { vram_bank: (value & 1) as i32, ..self.stored(index, value & 1) }
        } else if index == 0xFF51 && self.is_cgb {
            let v = if value > 0x7F && value < 0xC0 { 0u8 } else { value };
            MemoryView {
                hdma_source: ((v as u16) << 8u16) | (self.hdma_source & 0xF0),
                ..self.stored(index, v)
            }
        } else if index == 0xFF52 && self.is_cgb {
            let v = value & 0xF0;
            MemoryView { hdma_source: (self.hdma_source & 0xFF00) | (v as u16), ..self.stored(index, v) }
        } else if index == 0xFF53 && self.is_cgb {
            let v = value & 0x1F;
            MemoryView {
                hdma_destination: ((v as u16) << 8u16) | (self.hdma_destination & 0xF0) | 0x8000,
                ..self.stored(index, v)
            }
        } else if index == 0xFF54 && self.is_cgb {
            let v = value & 0xF0;
            MemoryView {
                hdma_destination: (self.hdma_destination & 0x1F00) | (v as u16) | 0x8000,
                ..self.stored(index, v)
            }
        } else if index == 0xFF55 && self.is_cgb {
            self.cgb_dma_written(value)
        } else if (index == 0xFF68 || index == 0xFF6A) && self.is_cgb {
            self.stored(index, value).palette_data_refreshed(index == 0xFF68, value)
        } else if (index == 0xFF69 || index == 0xFF6B) && self.is_cgb {
            self.stored(index, value).palette_data_written(index == 0xFF69, value)
        } else if index == 0xFF70 && self.is_cgb {
            let v = value & 0x07;
            MemoryView { wram_bank: if v == 0 { 1i32 } else { v as i32 }, ..self.stored(index, v) }
        } else {
            self.stored(index, value)
        }
    }

    /// The memory after the processor writes `value` at `index`; `now` is the
    /// wall-clock time, read only by a write that latches a cartridge clock.
    #[verifier::opaque]
    pub open spec fn write_at(self, index: u16, value: u8, now: u64) -> MemoryView {
        if index <= 0xFDFF {
            self.write_low(index, value, now)
        } else if index <= 0xFEFF {
            MemoryView { oam: self.oam.update(index - 0xFE00, value), ..self }
        } else {
            self.io_written(index, value)
        }
    }

    /// A write can be carried out: only a write that starts a transfer of the color
    /// model reads memory, and then only readable addresses may be read.
    pub open spec fn write_ok(self, index: u16, value: u8) -> bool {
        !(self.is_cgb && index == 0xFF55) || self.cgb_dma_ok(value)
    }

    /// A little-endian word can be written at `index`.
    pub open spec fn word_write_ok(self, index: u16, value: u16) -> bool {
        self.write_ok(index, low_byte(value)) && self.write_ok(add16(index, 1), high_byte(value))
    }
}

/// `new` is what the processor may find after writing `value` at `index` in `old`.
pub open spec fn writes(old: MemoryView, new: MemoryView, index: u16, value: u8) -> bool {
    exists|now: u64| new == old.write_at(index, value, now)
}

/// `new` is what the processor may find after writing the little-endian word `value`
/// at `index` in `old`: the low byte first, then the high byte at the next address
/// (0x0000 after 0xFFFF).
pub open spec fn writes_word(old: MemoryView, new: MemoryView, index: u16, value: u16) -> bool {
    exists|mid: MemoryView| writes(old, mid, index, low_byte(value)) && writes(mid, new, add16(index, 1), high_byte(value))
}

} // verus!

verus! {

/// The serial data and control registers (0xFF01, 0xFF02) read back as stored and
/// are written with no side effect.
pub proof fn lemma_serial_registers(m: MemoryView, index: u16, value: u8, now: u64)
    requires
        index == 0xFF01 || index == 0xFF02,
    ensures
        m.read(index) == m.load(index),
        m.write_at(index, value, now) == m.stored(index, value),
        writes(m, m.stored(index, value), index, value),
{
    reveal(MemoryView::read);
    reveal(MemoryView::write_at);
    assert(m.write_at(index, value, 0) == m.stored(index, value));
}

/// Addresses that hold what is written to them: video RAM, work RAM and its echo,
/// the sprite table and high RAM.
pub open spec fn plain_ram(index: u16) -> bool {
    ||| 0x8000 <= index <= 0x9FFF
    ||| 0xC000 <= index <= 0xFDFF
    ||| 0xFE00 <= index <= 0xFEFF
    ||| 0xFF80 <= index <= 0xFFFE
}

/// A read of plain RAM gives back the last byte written there, and a write to work
/// RAM is seen at its echo 0x2000 higher.
pub proof fn lemma_read_after_write(m: MemoryView, m2: MemoryView, index: u16, value: u8)
    requires
        m.wf(),
        plain_ram(index),
        writes(m, m2, index, value),
    ensures
        m2.read(index) == value,
        0xC000 <= index <= 0xDDFF ==> m2.read((index + 0x2000) as u16) == value,
{
    reveal(MemoryView::read);
    reveal(MemoryView::write_at);
    let now = choose|now: u64| m2 == m.write_at(index, value, now);
    assert(m2 == m.write_at(index, value, now));
    if index >= 0xFF80 {
        assert(m2 == m.stored(index, value));
    }
}

/// A write to plain RAM leaves every other plain-RAM address that is not its work
/// RAM echo as it was.
pub proof fn lemma_write_elsewhere(m: MemoryView, m2: MemoryView, index: u16, value: u8, other: u16)
    requires
        m.wf(),
        plain_ram(index),
        plain_ram(other),
        writes(m, m2, index, value),
        other != index,
        !(0xC000 <= index <= 0xDDFF && other == index + 0x2000),
        !(0xE000 <= index <= 0xFDFF && other == index - 0x2000),
    ensures
        m2.read(other) == m.read(other),
{
    reveal(MemoryView::read);
    reveal(MemoryView::write_at);
    let now = choose|now: u64| m2 == m.write_at(index, value, now);
    assert(m2 == m.write_at(index, value, now));
}

/// A word written to plain RAM reads back whole, little-endian.
pub proof fn lemma_word_read_after_write(m: MemoryView, m2: MemoryView, index: u16, value: u16)
    requires
        m.wf(),
        plain_ram(index),
        plain_ram(add16(index, 1)),
        writes_word(m, m2, index, value),
    ensures
        m2.read_word(index) == value,
{
    let mid = choose|mid: MemoryView| writes(m, mid, index, low_byte(value)) && writes(mid, m2, add16(index, 1), high_byte(value));
    reveal(MemoryView::write_at);
    assert(mid.wf()) by {
        reveal(MemoryView::read);
    }
    lemma_read_after_write(mid, m2, add16(index, 1), high_byte(value));
    lemma_read_after_write(m, mid, index, low_byte(value));
    lemma_write_elsewhere(mid, m2, add16(index, 1), high_byte(value), index);
    crate::cpu::registers::lemma_pair_roundtrip(0, 0, value);
}


proof fn lemma_request_bits(ie: u8, f: u8, b: u8)
    by (bit_vector)
    requires
        b < 5,
        bit_set_spec(ie, b),
    ensures
        ({
            let check = ie & ((with_bit_spec(f | 0xE0, b) & 0x1F) | 0xE0);
            bit_set_spec(check, 0) || bit_set_spec(check, 1) || bit_set_spec(check, 2) || bit_set_spec(check, 3)
                || bit_set_spec(check, 4)
        }),
        !bit_set_spec(without_bit_spec((with_bit_spec(f | 0xE0, b) & 0x1F) | 0xE0, b) & 0x1F, b),
{
}

/// An interrupt requested while IE enables it is pending, so one is taken; and
/// removing it afterwards clears its request flag.
pub proof fn lemma_requested_is_pending(m: MemoryView, i: Interrupt)
    requires
        m.wf(),
        bit_set_spec(m.load(0xFFFF), i.bit()),
    ensures
        m.interrupt_requested(i.bit()).pending_interrupt() is Some,
        !bit_set_spec(m.interrupt_requested(i.bit()).interrupt_removed(i.bit()).load(0xFF0F), i.bit()),
{
    lemma_request_bits(m.load(0xFFFF), m.load(0xFF0F), i.bit());
}

proof fn lemma_write_low_time(m: MemoryView, index: u16, value: u8, t1: u64, t2: u64)
    requires
        !(0x6000 <= index <= 0x7FFF),
    ensures
        m.write_low(index, value, t1) == m.write_low(index, value, t2),
{
}

impl Memory {
    /// A memory map for the monochrome model holding a blank 32 KiB cartridge without
    /// a bank controller, with 8 KiB of RAM.
    pub fn new() -> (r: Memory)
        ensures
            r@.wf(),
            !r@.is_cgb,
            r@.mbc is RomOnly,
            r@.mbc.cartridge().ram_size > 0,
            r@.high_ram == io_initial(false),
    {
        let mut rom = vec![0u8; 0x8000];
        rom.set(0x0149, 2);
        proof {
            lemma_smear_one();
            assert(rom@[0x0147] == 0 && rom@[0x0149] == 2);
        }
        let cartridge = Cartridge::from_rom(rom).unwrap();
        Memory::with_mbc(Mbc::RomOnly(RomOnly::new(cartridge)), false)
    }

    /// The memory map for a cartridge; an MBC3 controller reads the clock.
    pub fn from_cartridge(cartridge: Cartridge, rtc: Box<dyn RTC>, is_cgb: bool) -> (r: Memory)
        requires
            cartridge_supported(cartridge@),
        ensures
            exists|first_now: u64, now: u64| r@.booted(#[trigger] mbc_for(cartridge@, first_now, now), is_cgb),
            r@.wf(),
            r@.is_cgb == is_cgb,
            r@.high_ram == io_initial(is_cgb),
            r@.mbc.cartridge() == cartridge@ || r@.mbc is Mbc3,
    {
        let mbc = Mbc::from_cartridge(cartridge, rtc);
        Memory::with_mbc(mbc, is_cgb)
    }

    fn with_mbc(mbc: Mbc, is_cgb: bool) -> (r: Memory)
        requires
            mbc@.wf(),
        ensures
            r@.wf(),
            r@.is_cgb == is_cgb,
            r@.mbc == mbc@,
            r@.high_ram == io_initial(is_cgb),
            r@.scan_line == 144,
            r@.lcd_status_mode == 1,
            !r@.screen_disabled,
            r@.vram_bank == 0,
            r@.wram_bank == 1,
            !r@.hdma_enabled,
            r@.ram_changes.len() == 0,
            r@.booted(mbc@, is_cgb),
            forall|k: int| 0 <= k < r@.wram.len() ==> r@.wram[k] == 0,
            forall|k: int| 0 <= k < r@.vram.len() ==> r@.vram[k] == 0,
            forall|k: int| 0 <= k < 0x100 ==> r@.oam[k] == 0,
    {
        let high_ram = io_initial_values(is_cgb);
        let vram = if is_cgb {
            vec![0x00u8; 0x2000 * 2]
        } else {
            vec![0x00u8; 0x2000]
        };
        let wram = if is_cgb {
            vec![0x00u8; 0x1000 * 8]
        } else {
            vec![0x00u8; 0x1000 * 2]
        };
        let mut hdma_source: u16 = 0;
        let mut hdma_destination: u16 = 0;
        if is_cgb {
            let mut hdma_source_high = high_ram[0xFF51 - 0xFF00] as u16;
            let hdma_source_low = high_ram[0xFF52 - 0xFF00] as u16;
            if hdma_source_high > 0x7F && hdma_source_high < 0xA0 {
                hdma_source_high = 0;
            }
            hdma_source = (hdma_source_high << 8u16) | (hdma_source_low & 0xF0);
            let hdma_destination_high = high_ram[0xFF53 - 0xFF00] as u16;
            let hdma_destination_low = high_ram[0xFF54 - 0xFF00] as u16;
            hdma_destination = ((hdma_destination_high & 0x1F) << 8u16) | (hdma_destination_low & 0xF0);
            hdma_destination |= 0x8000;
        }
        let mut sound = Sound::new();
        let mut i: u16 = 0xFF10;
        while i <= 0xFF3F
            invariant
                0xFF10 <= i <= 0xFF40,
                sound@.wf(),
                high_ram@ == io_initial(is_cgb),
                sound@.written_from(i as int, io_initial(is_cgb)) == SoundView::initial().written_from(
                    0xFF10,
                    io_initial(is_cgb),
                ),
            decreases 0xFF40 - i,
        {
            let value = high_ram[(i - 0xFF00) as usize];
            sound.write_byte(i, value);
            i += 1;
        }
        let white = CGBColor { red: 0, green: 0, blue: 0 };
        let cgb_background_palettes = vec![white; 32];
        let cgb_sprite_palettes = vec![white; 32];
        assert(sound@ == SoundView::initial().written_from(0xFF10, io_initial(is_cgb)));
        assert(cgb_background_palettes@ =~= Seq::new(32, |k: int| CGBColor { red: 0, green: 0, blue: 0 }));
        assert(cgb_sprite_palettes@ =~= Seq::new(32, |k: int| CGBColor { red: 0, green: 0, blue: 0 }));
        assert(hdma_source == boot_hdma_source(is_cgb));
        assert(hdma_destination == boot_hdma_destination(is_cgb));
        Memory {
            mbc,
            vram,
            wram,
            oam: vec![0u8; 0x100],
            high_ram,
            scan_line: 144,
            joypad_state: 0,
            irq48_signal: 0,
            screen_disabled: false,
            lcd_status_mode: 1,
            gpu_cycles: GpuCycles::new(),
            div_cycles: 0,
            tima_cycles: 0,
            is_cgb,
            vram_bank: 0,
            wram_bank: 1,
            hdma_source,
            hdma_destination,
            hdma_bytes: 0,
            hdma_enabled: false,
            cgb_background_palettes,
            cgb_sprite_palettes,
            sound,
            ram_changes: Vec::new(),
        }
    }

    /// An I/O register or high-RAM byte as stored, without the read-side masks.
    pub fn load(&self, index: u16) -> (r: u8)
        requires
            self@.wf(),
            index >= 0xFF00,
        ensures
            r == self@.load(index),
    {
        self.high_ram[(index - 0xFF00) as usize]
    }

    /// Stores an I/O register or high-RAM byte directly, with no side effect.
    pub fn store(&mut self, index: u16, value: u8)
        requires
            old(self)@.wf(),
            index >= 0xFF00,
        ensures
            final(self)@ == old(self)@.stored(index, value),
            final(self)@.wf(),
    {
        self.high_ram.set((index - 0xFF00) as usize, value);
    }

    pub fn are_action_keys_enabled(&self) -> (r: bool)
        requires
            self@.wf(),
        ensures
            r == self@.action_keys_enabled(),
    {
        let joypad_control = self.load(0xFF00);
        joypad_control & 0x30 != 0x20
    }

    pub fn are_direction_keys_enabled(&self) -> (r: bool)
        requires
            self@.wf(),
        ensures
            r == self@.direction_keys_enabled(),
    {
        let joypad_control = self.load(0xFF00);
        joypad_control & 0x30 != 0x10
    }

    fn get_joypad_state(&self) -> (r: u8)
        requires
            self@.wf(),
        ensures
            r == self@.joypad_read(),
    {
        let joypad_control = self.load(JOYPAD_INDEX);
        if self.are_direction_keys_enabled() {
            (joypad_control & 0xF0) | (self.joypad_state & 0x0F)
        } else if self.are_action_keys_enabled() {
            (joypad_control & 0xF0) | (self.joypad_state >> 4u8)
        } else {
            joypad_control
        }
    }

    /// The joypad register P1 as it reads.
    pub fn joypad_lines(&self) -> (r: u8)
        requires
            self@.wf(),
        ensures
            r == self@.joypad_read(),
    {
        self.get_joypad_state()
    }

    /// Records the buttons: one bit per button, clear while it is pressed.
    pub fn set_joypad_state(&mut self, joypad_state: u8)
        ensures
            final(self)@ == (MemoryView { joypad_state, ..old(self)@ }),
    {
        self.joypad_state = joypad_state;
    }

    /// Reads a byte of the address space.
    pub fn read_byte(&self, index: u16) -> (r: u8)
        requires
            self@.wf(),
            readable(index),
        ensures
            r == self@.read(index),
    {
        proof {
            reveal(MemoryView::read);
        }
        if index <= 0x7FFF || (0xA000 <= index && index <= 0xBFFF) {
            self.mbc.read_byte(index)
        } else if index <= 0x9FFF {
            self.read_cgb_lcd_ram(index, self.vram_bank)
        } else if index <= 0xCFFF {
            self.read_cgb_wram(index - 0xC000, 0)
        } else if index <= 0xDFFF {
            self.read_cgb_wram(index - 0xD000, self.wram_bank)
        } else if index <= 0xFDFF {
            let i = index - 0x2000;
            if i <= 0xCFFF {
                self.read_cgb_wram(i - 0xC000, 0)
            } else {
                self.read_cgb_wram(i - 0xD000, self.wram_bank)
            }
        } else if index <= 0xFEFF {
            self.oam[(index - 0xFE00) as usize]
        } else if index == JOYPAD_INDEX {
            self.get_joypad_state()
        } else if index == TIMER_CONTROL_INDEX {
            self.load(index) | 0xF8
        } else if index == INTERRUPT_FLAGS_INDEX {
            self.load(index) | 0xE0
        } else if 0xFF10 <= index && index <= 0xFF3F {
            self.sound.read_byte(index)
        } else if index == LCD_INDEX {
            self.load(index) | 0x80
        } else if index == LY_INDEX {
            if !self.screen_disabled {
                self.scan_line
            } else {
                0x00
            }
        } else if index == CGB_BACKGROUND_PALETTE_INDEX_INDEX || index == CGB_SPRITE_PALETTE_INDEX_INDEX {
            if self.is_cgb {
                self.load(index) | 0x40
            } else {
                0xC0
            }
        } else if index == CGB_BACKGROUND_PALETTE_DATA_INDEX || index == CGB_SPRITE_PALETTE_DATA_INDEX {
            if self.is_cgb {
                self.load(index) | 0xF8
            } else {
                0xFF
            }
        } else {
            self.load(index)
        }
    }

    /// A byte of video RAM at an address 0x8000..=0x9FFF, in bank `bank`.
    pub fn read_cgb_lcd_ram(&self, index: u16, bank: i32) -> (r: u8)
        requires
            self@.wf(),
            0x8000 <= index <= 0x9FFF,
            0 <= bank,
            bank * 0x2000 + 0x2000 <= self@.vram.len(),
        ensures
            r == self@.vram[index - 0x8000 + 0x2000 * bank],
    {
        let offset = 0x2000 * bank as usize;
        let address = index as usize - 0x8000 + offset;
        self.vram[address]
    }

    fn write_cgb_lcd_ram(&mut self, index: u16, value: u8, bank: i32)
        requires
            old(self)@.wf(),
            0x8000 <= index <= 0x9FFF,
            0 <= bank,
            bank * 0x2000 + 0x2000 <= old(self)@.vram.len(),
        ensures
            final(self)@ == (MemoryView { vram: old(self)@.vram.update(index - 0x8000 + 0x2000 * bank, value), ..old(self)@ }),
    {
        let offset = 0x2000 * bank as usize;
        let address = index as usize - 0x8000 + offset;
        self.vram.set(address, value);
    }

    fn read_cgb_wram(&self, index: u16, bank: i32) -> (r: u8)
        requires
            self@.wf(),
            index <= 0x0FFF,
            0 <= bank,
            bank * 0x1000 + 0x1000 <= self@.wram.len(),
        ensures
            r == self@.wram[index + 0x1000 * bank],
    {
        let offset = 0x1000 * bank as usize;
        let address = index as usize + offset;
        self.wram[address]
    }

    fn write_cgb_wram(&mut self, index: u16, value: u8, bank: i32)
        requires
            old(self)@.wf(),
            index <= 0x0FFF,
            0 <= bank,
            bank * 0x1000 + 0x1000 <= old(self)@.wram.len(),
        ensures
            final(self)@ == (MemoryView { wram: old(self)@.wram.update(index + 0x1000 * bank, value), ..old(self)@ }),
    {
        let offset = 0x1000 * bank as usize;
        let address = index as usize + offset;
        self.wram.set(address, value);
    }

    /// A write below 0xFE00 (see `MemoryView::write_low`).
    fn write_low(&mut self, index: u16, value: u8)
        requires
            old(self)@.wf(),
            index <= 0xFDFF,
        ensures
            exists|now: u64| final(self)@ == old(self)@.write_low(index, value, now),
            !(0x6000 <= index <= 0x7FFF) ==> final(self)@ == old(self)@.write_low(index, value, 0),
            final(self)@.wf(),
    {
        if index <= 0x7FFF || (0xA000 <= index && index <= 0xBFFF) {
            let change = self.mbc.write_byte(index, value);
            match change {
                Some(c) => self.ram_changes.push(c),
                None => {},
            }
            proof {
                let now = choose|now: u64| self@.mbc == old(self)@.mbc.write_at(index, value, now);
                assert(self@ == old(self)@.write_low(index, value, now));
                if !(0x6000 <= index <= 0x7FFF) {
                    lemma_write_low_time(old(self)@, index, value, now, 0);
                }
            }
        } else if index <= 0x9FFF {
            self.write_cgb_lcd_ram(index, value, self.vram_bank);
            assert(self@ == old(self)@.write_low(index, value, 0));
        } else if index <= 0xCFFF {
            self.write_cgb_wram(index - 0xC000, value, 0);
            assert(self@ == old(self)@.write_low(index, value, 0));
        } else if index <= 0xDFFF {
            self.write_cgb_wram(index - 0xD000, value, self.wram_bank);
            assert(self@ == old(self)@.write_low(index, value, 0));
        } else {
            let i = index - 0x2000;
            if i <= 0xCFFF {
                self.write_cgb_wram(i - 0xC000, value, 0);
            } else {
                self.write_cgb_wram(i - 0xD000, value, self.wram_bank);
            }
            assert(self@ == old(self)@.write_low(index, value, 0));
        }
    }

    /// Writes a byte of the address space (see `MemoryView::write_at`).
    pub fn write_byte(&mut self, index: u16, value: u8)
        requires
            old(self)@.wf(),
            old(self)@.write_ok(index, value),
        ensures
            writes(old(self)@, final(self)@, index, value),
            final(self)@.wf(),
    {
        proof {
            reveal(MemoryView::write_at);
        }
        if index <= 0xFDFF {
            self.write_low(index, value);
            proof {
                let now = choose|now: u64| self@ == old(self)@.write_low(index, value, now);
                assert(self@ == old(self)@.write_at(index, value, now));
            }
        } else if index <= 0xFEFF {
            self.oam.set((index - 0xFE00) as usize, value);
            assert(self@ == old(self)@.write_at(index, value, 0));
        } else {
            self.write_io(index, value);
            assert(self@ == old(self)@.write_at(index, value, 0));
        }
    }

    #[verifier::rlimit(60)]
    #[verifier::spinoff_prover]
    fn write_io(&mut self, index: u16, value: u8)
        requires
            old(self)@.wf(),
            index >= 0xFF00,
            old(self)@.write_ok(index, value),
        ensures
            final(self)@ == old(self)@.io_written(index, value),
            final(self)@.wf(),
    {
        if index == DIVIDER_INDEX {
            self.store(index, 0);
        } else if index == INTERRUPT_FLAGS_INDEX || index == INTERRUPT_ENABLE_INDEX {
            self.store(index, value & 0x1F);
        } else if 0xFF10 <= index && index <= 0xFF3F {
            self.sound.write_byte(index, value);
        } else if index == LCD_CONTROL_INDEX {
            self.do_lcd_control_write(value);
        } else if index == LCD_INDEX {
            self.do_lcd_status_write(value);
        } else if index == LY_INDEX {
            self.do_scanline_write(value);
        } else if index == LYC_INDEX {
            self.do_lyc_write(value);
        } else if index == 0xFF46 {
            self.store(index, value);
            self.do_dma_transfer(value);
        } else if index == 0xFF4D && self.is_cgb {
            let current_key1 = self.load(index);
            self.store(index, (current_key1 & 0x80) | (value & 1) | 0x7E);
        } else if index == VRAM_BANK_INDEX && self.is_cgb {
            proof {
                lemma_and_bounds_u8(value, 1);
            }
            let value = value & 1;
            self.vram_bank = value as i32;
            self.store(index, value);
        } else if index == 0xFF51 && self.is_cgb {
            let value = if value > 0x7F && value < 0xC0 {
                0
            } else {
                value
            };
            self.hdma_source = ((value as u16) << 8u16) | (self.hdma_source & 0xF0);
            self.store(index, value);
        } else if index == 0xFF52 && self.is_cgb {
            let value = value & 0xF0;
            self.hdma_source = (self.hdma_source & 0xFF00) | (value as u16);
            self.store(index, value);
        } else if index == 0xFF53 && self.is_cgb {
            let value = value & 0x1F;
            self.hdma_destination = ((value as u16) << 8u16) | (self.hdma_destination & 0xF0);
            self.hdma_destination |= 0x8000;
            self.store(index, value);
        } else if index == 0xFF54 && self.is_cgb {
            let value = value & 0xF0;
            self.hdma_destination = (self.hdma_destination & 0x1F00) | (value as u16);
            self.hdma_destination |= 0x8000;
            self.store(index, value);
        } else if index == 0xFF55 && self.is_cgb {
            self.do_cgb_dma(value);
        } else if index == CGB_BACKGROUND_PALETTE_INDEX_INDEX && self.is_cgb {
            self.store(index, value);
            self.update_color_palette(true, value);
        } else if index == CGB_BACKGROUND_PALETTE_DATA_INDEX && self.is_cgb {
            self.store(index, value);
            self.set_color_palette(true, value);
        } else if index == CGB_SPRITE_PALETTE_INDEX_INDEX && self.is_cgb {
            self.store(index, value);
            self.update_color_palette(false, value);
        } else if index == CGB_SPRITE_PALETTE_DATA_INDEX && self.is_cgb {
            self.store(index, value);
            self.set_color_palette(false, value);
        } else if index == 0xFF70 && self.is_cgb {
            proof {
                lemma_and_bounds_u8(value, 0x07);
            }
            let value = value & 0x07;
            self.wram_bank = value as i32;
            if self.wram_bank == 0 {
                self.wram_bank = 1;
            }
            self.store(index, value);
        } else {
            self.store(index, value);
        }
    }

    pub fn do_lcd_control_write(&mut self, value: u8)
        requires
            old(self)@.wf(),
        ensures
            final(self)@ == old(self)@.lcd_control_written(value),
            final(self)@.wf(),
    {
        let current_lcdc = self.load(LCD_CONTROL_INDEX);
        self.store(LCD_CONTROL_INDEX, value);
        if current_lcdc & 0x20 == 0 && value & 0x20 != 0 {
            self.reset_window_line();
        }
        if value & 0x80 != 0 {
            self.enable_screen();
        } else {
            self.disable_screen();
        }
    }

    pub fn do_lcd_status_write(&mut self, value: u8)
        requires
            old(self)@.wf(),
        ensures
            final(self)@ == old(self)@.lcd_status_written(value),
            final(self)@.wf(),
    {
        let current_stat = self.load(LCD_INDEX) & 0x07;
        let new_stat = (value & 0x78) | (current_stat & 0x07);
        self.store(LCD_INDEX, new_stat);
        let lcd_control = self.load(LCD_CONTROL_INDEX);
        let mut signal = self.irq48_signal;
        let mode = self.lcd_status_mode;
        signal &= (new_stat >> 3u8) & 0x0F;
        self.irq48_signal = signal;
        if lcd_control & 0x80 != 0 {
            if is_set(new_stat, 3) && mode == 0 {
                if signal == 0 {
                    self.request_interrupt(Interrupt::Lcd);
                }
                signal = set_bit(signal, 0);
            }
            if is_set(new_stat, 4) && mode == 1 {
                if signal == 0 {
                    self.request_interrupt(Interrupt::Lcd);
                }
                signal = set_bit(signal, 1);
            }
            if is_set(new_stat, 5) && mode == 2 && signal == 0 {
                self.request_interrupt(Interrupt::Lcd);
            }
            self.compare_ly_to_lyc();
        }
    }

    pub fn do_scanline_write(&mut self, value: u8)
        requires
            old(self)@.wf(),
        ensures
            final(self)@ == old(self)@.scanline_written(value),
            final(self)@.wf(),
    {
        let current_ly = self.scan_line;
        if is_set(current_ly, 7) && !is_set(value, 7) {
            self.disable_screen();
        }
    }

    pub fn do_lyc_write(&mut self, value: u8)
        requires
            old(self)@.wf(),
        ensures
            final(self)@ == old(self)@.lyc_written(value),
            final(self)@.wf(),
    {
        let current_lyc = self.load(LYC_INDEX);
        if current_lyc != value {
            self.store(LYC_INDEX, value);
            let lcd_control = self.load(LCD_CONTROL_INDEX);
            if lcd_control & 0x80 != 0 {
                self.compare_ly_to_lyc();
            }
        }
    }

    /// Copies the 160 bytes at `data` * 0x100 into the sprite attribute table.
    pub fn do_dma_transfer(&mut self, data: u8)
        requires
            old(self)@.wf(),
        ensures
            final(self)@ == old(self)@.dma_done(data),
            final(self)@.wf(),
    {
        proof {
            reveal(MemoryView::read);
        }
        let address: u16 = 0x100 * data as u16;
        if address >= 0x8000 && address < 0xE000 {
            let mut i: u16 = 0;
            while i < 0xA0
                invariant
                    i <= 0xA0,
                    0x8000 <= address < 0xE000,
                    address == 0x100 * data,
                    self@.wf(),
                    self@ == (MemoryView { oam: self@.oam, ..old(self)@ }),
                    forall|k: int| 0 <= k < i ==> self@.oam[k] == old(self)@.read((address + k) as u16),
                    forall|k: int| i <= k < 0x100 ==> self@.oam[k] == old(self)@.oam[k],
                decreases 0xA0 - i,
            {
                let value = self.read_byte(address + i);
                proof {
                    reveal(MemoryView::read);
                }
                assert(value == old(self)@.read((address + i) as u16));
                self.oam.set(i as usize, value);
                i += 1;
            }
            assert(self@.oam =~= old(self)@.dma_done(data).oam);
        }
    }

    pub fn compare_ly_to_lyc(&mut self)
        requires
            old(self)@.wf(),
        ensures
            final(self)@ == old(self)@.ly_compared(),
            final(self)@.wf(),
    {
        if !self.screen_disabled {
            let lyc = self.load(LYC_INDEX);
            let mut stat = self.load(LCD_INDEX);
            if lyc == self.scan_line {
                stat = set_bit(stat, 2);
                if is_set(stat, 6) {
                    if self.irq48_signal == 0 {
                        self.request_interrupt(Interrupt::Lcd);
                    }
                    self.irq48_signal = set_bit(self.irq48_signal, 3);
                }
            } else {
                stat = unset_bit(stat, 2);
                self.irq48_signal = unset_bit(self.irq48_signal, 3);
            }
            self.store(LCD_INDEX, stat);
        }
    }

    pub fn enable_screen(&mut self)
        requires
            old(self)@.wf(),
        ensures
            final(self)@ == old(self)@.screen_enabled(),
            final(self)@.wf(),
    {
        if self.screen_disabled {
            self.gpu_cycles.screen_enable_delay_cycles = 244;
        }
    }

    pub fn disable_screen(&mut self)
        requires
            old(self)@.wf(),
        ensures
            final(self)@ == old(self)@.screen_turned_off(),
            final(self)@.wf(),
    {
        self.screen_disabled = true;
        let mut stat = self.load(LCD_INDEX);
        stat &= 0x7C;
        self.store(LCD_INDEX, stat);
        self.lcd_status_mode = 0;
        self.gpu_cycles.cycles_counter = 0;
        self.gpu_cycles.aux_cycles_counter = 0;
        self.scan_line = 0;
        self.irq48_signal = 0;
    }

    pub fn reset_window_line(&mut self)
        requires
            old(self)@.wf(),
        ensures
            final(self)@ == old(self)@.window_line_reset(),
            final(self)@.wf(),
    {
        let wy = self.load(WINDOW_Y_INDEX);
        if (self.gpu_cycles.window_line == 0) && (self.scan_line < 144) && (self.scan_line > wy) {
            self.gpu_cycles.window_line = 144;
        }
    }
}

} // verus!

verus! {

impl Memory {
    /// Raises the flag of `interrupt` in the interrupt-flag register.
    pub fn request_interrupt(&mut self, interrupt: Interrupt)
        requires
            old(self)@.wf(),
        ensures
            final(self)@ == old(self)@.interrupt_requested(interrupt.bit()),
            final(self)@.wf(),
    {
        let mut interrupt_flag = self.load(INTERRUPT_FLAGS_INDEX) | 0xE0;
        let bit = interrupt.bit_index();
        interrupt_flag = set_bit(interrupt_flag, bit);
        self.store(INTERRUPT_FLAGS_INDEX, interrupt_flag & 0x1F);
    }

    /// Clears the flag of `interrupt` in the interrupt-flag register.
    pub fn remove_interrupt(&mut self, interrupt: Interrupt)
        requires
            old(self)@.wf(),
        ensures
            final(self)@ == old(self)@.interrupt_removed(interrupt.bit()),
            final(self)@.wf(),
    {
        let mut interrupt_flag = self.load(INTERRUPT_FLAGS_INDEX) | 0xE0;
        let bit = interrupt.bit_index();
        interrupt_flag = unset_bit(interrupt_flag, bit);
        self.store(INTERRUPT_FLAGS_INDEX, interrupt_flag & 0x1F);
    }

    /// The enabled interrupt of highest priority among those requested, if any.
    pub fn get_interrupts(&self) -> (r: Option<Interrupt>)
        requires
            self@.wf(),
        ensures
            r == self@.pending_interrupt(),
    {
        let interrupt_enable = self.load(INTERRUPT_ENABLE_INDEX);
        let interrupt_flags = self.load(INTERRUPT_FLAGS_INDEX) | 0xE0;
        let check = interrupt_enable & interrupt_flags;
        if is_set(check, 0) {
            Some(Interrupt::Vblank)
        } else if is_set(check, 1) {
            Some(Interrupt::Lcd)
        } else if is_set(check, 2) {
            Some(Interrupt::Timer)
        } else if is_set(check, 3) {
            Some(Interrupt::Serial)
        } else if is_set(check, 4) {
            Some(Interrupt::Joypad)
        } else {
            None
        }
    }

    fn do_cgb_dma(&mut self, value: u8)
        requires
            old(self)@.wf(),
            old(self)@.cgb_dma_ok(value),
        ensures
            final(self)@ == old(self)@.cgb_dma_written(value),
            final(self)@.wf(),
    {
        proof {
            lemma_and_bounds_u8(value, 0x7F);
        }
        self.hdma_bytes = 16 + ((value & 0x7F) as i32 * 16);
        if self.hdma_enabled {
            if is_set(value, 7) {
                self.store(0xFF55, value & 0x7F);
            } else {
                self.store(0xFF55, 0xFF);
                self.hdma_enabled = false;
            }
        } else if is_set(value, 7) {
            self.hdma_enabled = true;
            self.store(0xFF55, value & 0x7F);
            if self.lcd_status_mode == 0 {
                let _cycles = self.do_hdma();
            }
        } else {
            let _cycles = self.do_gdma(value);
        }
    }

    /// Copies `n` bytes from `source` (wrapping past 0xFFFF) to `destination`.
    fn copy_block(&mut self, source: u16, destination: u16, n: u16)
        requires
            old(self)@.wf(),
            0x8000 <= destination,
            destination as int + n <= 0xA800,
            range_readable(source, n as int),
        ensures
            final(self)@ == old(self)@.gdma_copied(source, destination, n as nat),
            final(self)@.wf(),
            old(self)@.same_registers(final(self)@),
    {
        let mut i: u16 = 0;
        while i < n
            invariant
                i <= n,
                0x8000 <= destination,
                destination as int + n <= 0xA800,
                range_readable(source, n as int),
                self@.wf(),
                self@ == old(self)@.gdma_copied(source, destination, i as nat),
                old(self)@.same_registers(self@),
            decreases n - i,
        {
            let address = source.wrapping_add(i);
            assert(readable(add16(source, i as int)));
            let value = self.read_byte(address);
            let ghost before = self@;
            self.write_low(destination + i, value);
            assert(self@ == before.write_low((destination + i) as u16, value, 0));
            assert(value == before.read(add16(source, i as int)));
            i += 1;
            assert(self@ == old(self)@.gdma_copied(source, destination, i as nat));
        }
    }

    /// One 16-byte block of an H-blank transfer (see `MemoryView::hdma_done`).
    pub fn do_hdma(&mut self) -> (r: i32)
        requires
            old(self)@.wf(),
            range_readable(old(self)@.hdma_source & 0xFFF0, 0x10),
            old(self)@.hdma_bytes >= 0x10,
        ensures
            final(self)@ == old(self)@.hdma_done(),
            final(self)@.wf(),
            r == 36,
    {
        let source = self.hdma_source & 0xFFF0;
        let destination = (self.hdma_destination & 0x1FF0) | 0x8000;
        proof {
            reveal(MemoryView::read);
            lemma_dest_bits(self.hdma_destination);
        }
        self.copy_block(source, destination, 0x10);
        self.hdma_destination = self.hdma_destination.wrapping_add(0x10);
        if self.hdma_destination == 0xA000 {
            self.hdma_destination = 0x8000;
        }
        self.hdma_source = self.hdma_source.wrapping_add(0x10);
        if self.hdma_source == 0x8000 {
            self.hdma_source = 0xA000;
        }
        proof {
            lemma_pair_bytes(0, 0, self.hdma_source);
            lemma_pair_bytes(0, 0, self.hdma_destination);
            lemma_and_byte(self.hdma_source);
            lemma_and_byte(self.hdma_destination);
        }
        self.store(0xFF51, (self.hdma_source >> 8u16) as u8);
        self.store(0xFF52, (self.hdma_source & 0xFF) as u8);
        self.store(0xFF53, (self.hdma_destination >> 8u16) as u8);
        self.store(0xFF54, (self.hdma_destination & 0xFF) as u8);
        self.hdma_bytes -= 0x10;
        let len = self.load(0xFF55).wrapping_sub(1);
        self.store(0xFF55, len);
        if self.load(0xFF55) == 0xFF {
            self.hdma_enabled = false;
        }
        9 * 4
    }

    /// A general-purpose transfer (see `MemoryView::gdma_done`).
    #[verifier::spinoff_prover]
    fn do_gdma(&mut self, value: u8) -> (r: i32)
        requires
            old(self)@.wf(),
            range_readable(old(self)@.hdma_source & 0xFFF0, old(self)@.hdma_bytes as int),
            old(self)@.hdma_bytes == 16 + (value & 0x7F) * 16,
        ensures
            final(self)@ == old(self)@.gdma_done(),
            final(self)@.wf(),
            r == 1 + 8 * ((value & 0x7F) * 4),
    {
        proof {
            lemma_and_bounds_u8(value, 0x7F);
            lemma_dest_bits(self.hdma_destination);
        }
        let source = self.hdma_source & 0xFFF0;
        let destination = (self.hdma_destination & 0x1FF0) | 0x8000;
        let bytes = self.hdma_bytes as u16;
        self.copy_block(source, destination, bytes);
        self.hdma_source = self.hdma_source.wrapping_add(bytes);
        self.hdma_destination = self.hdma_destination.wrapping_add(bytes);
        self.store(0xFF51, 0xFF);
        self.store(0xFF52, 0xFF);
        self.store(0xFF53, 0xFF);
        self.store(0xFF54, 0xFF);
        self.store(0xFF55, 0xFF);
        1 + 8 * ((value & 0x7F) as i32 * 4)
    }

    fn palette_index(value: u8) -> (r: usize)
        ensures
            r == ((value >> 3u8) & 0x07) * 4 + ((value >> 1u8) & 0x03),
            r < 32,
    {
        proof {
            lemma_palette_bits(value);
        }
        (((value >> 3u8) & 0x07) as usize) * 4 + (((value >> 1u8) & 0x03) as usize)
    }

    fn update_color_palette(&mut self, background: bool, value: u8)
        requires
            old(self)@.wf(),
        ensures
            final(self)@ == old(self)@.palette_data_refreshed(background, value),
            final(self)@.wf(),
    {
        let hl = is_set(value, 0);
        let k = Memory::palette_index(value);
        let color = if background {
            self.cgb_background_palettes[k]
        } else {
            self.cgb_sprite_palettes[k]
        };
        let final_value = if hl {
            let blue = (color.blue & 0x1F) << 2u8;
            let half_green_hi = (color.green >> 3u8) & 0x03;
            (blue | half_green_hi) & 0x7F
        } else {
            let half_green_low = (color.green & 0x07) << 5u8;
            let red = color.red & 0x1F;
            red | half_green_low
        };
        if background {
            self.store(CGB_BACKGROUND_PALETTE_DATA_INDEX, final_value);
        } else {
            self.store(CGB_SPRITE_PALETTE_DATA_INDEX, final_value);
        }
    }

    fn set_color_palette(&mut self, background: bool, value: u8)
        requires
            old(self)@.wf(),
        ensures
            final(self)@ == old(self)@.palette_data_written(background, value),
            final(self)@.wf(),
    {
        let mut ps = if background {
            self.load(CGB_BACKGROUND_PALETTE_INDEX_INDEX)
        } else {
            self.load(CGB_SPRITE_PALETTE_INDEX_INDEX)
        };
        let hl = is_set(ps, 0);
        let k = Memory::palette_index(ps);
        let increment = is_set(ps, 7);
        if increment {
            proof {
                lemma_and_bounds_u8(ps, 0x3F);
            }
            let mut address = ps & 0x3F;
            address += 1;
            address &= 0x3F;
            ps = (ps & 0x80) | address;
            if background {
                self.store(CGB_BACKGROUND_PALETTE_INDEX_INDEX, ps);
            } else {
                self.store(CGB_SPRITE_PALETTE_INDEX_INDEX, ps);
            }
            self.update_color_palette(background, ps);
        }
        if hl {
            let blue = (value >> 2u8) & 0x1F;
            let half_green_hi = (value & 0x03) << 3u8;
            if background {
                let mut c = self.cgb_background_palettes[k];
                c.blue = blue;
                c.green = (c.green & 0x07) | half_green_hi;
                self.cgb_background_palettes.set(k, c);
            } else {
                let mut c = self.cgb_sprite_palettes[k];
                c.blue = blue;
                c.green = (c.green & 0x07) | half_green_hi;
                self.cgb_sprite_palettes.set(k, c);
            }
        } else {
            let half_green_low = (value >> 5u8) & 0x07;
            let red = value & 0x1F;
            if background {
                let mut c = self.cgb_background_palettes[k];
                c.red = red;
                c.green = (c.green & 0x18) | half_green_low;
                self.cgb_background_palettes.set(k, c);
            } else {
                let mut c = self.cgb_sprite_palettes[k];
                c.red = red;
                c.green = (c.green & 0x18) | half_green_low;
                self.cgb_sprite_palettes.set(k, c);
            }
        }
    }

    /// Reads a little-endian word: the byte at `index` is the low byte, the next one
    /// (0x0000 after 0xFFFF) the high byte.
    pub fn read_word(&self, index: u16) -> (r: u16)
        requires
            self@.wf(),
            readable(index),
            readable(add16(index, 1)),
        ensures
            r == self@.read_word(index),
    {
        let low = self.read_byte(index) as u16;
        let high = self.read_byte(index.wrapping_add(1)) as u16;
        proof {
            lemma_pair_bytes(high as u8, low as u8, 0);
        }
        (high << 8u16) + low
    }

    /// Writes a little-endian word: the low byte at `index`, then the high byte.
    pub fn write_word(&mut self, index: u16, value: u16)
        requires
            old(self)@.wf(),
            old(self)@.word_write_ok(index, value),
        ensures
            writes_word(old(self)@, final(self)@, index, value),
            final(self)@.wf(),
    {
        proof {
            lemma_pair_bytes(0, 0, value);
        }
        let high = (value >> 8u16) as u8;
        let low = value as u8;
        self.write_byte(index, low);
        let ghost mid = self@;
        proof {
            lemma_write_ok_after(old(self)@, mid, index, low, high);
        }
        self.write_byte(index.wrapping_add(1), high);
        assert(writes(old(self)@, mid, index, low_byte(value)));
    }

    /// Replaces the cartridge RAM with a saved image at least as long.
    pub fn set_cartridge_ram(&mut self, ram: Vec<u8>)
        requires
            old(self)@.wf(),
            ram@.len() >= old(self)@.mbc.cartridge().ram.len(),
        ensures
            final(self)@ == (MemoryView { mbc: old(self)@.mbc.with_cartridge_ram(ram@), ..old(self)@ }),
            final(self)@.wf(),
    {
        self.mbc.set_cartridge_ram(ram);
    }

    /// Records the cartridge clock registers and the time they were saved at.
    pub fn set_last_timestamp(&mut self, rtc: Rtc, last_time: u64)
        requires
            old(self)@.wf(),
        ensures
            final(self)@ == (MemoryView { mbc: old(self)@.mbc.with_timestamp(rtc, last_time), ..old(self)@ }),
            final(self)@.wf(),
    {
        self.mbc.set_last_timestamp(rtc, last_time);
    }

    pub fn is_hdma_enabled(&self) -> (r: bool)
        ensures
            r == self@.hdma_enabled,
    {
        self.hdma_enabled
    }

    pub fn get_cartridge(&self) -> (r: &Cartridge)
        ensures
            r@ == self@.mbc.cartridge(),
    {
        self.mbc.get_cartridge()
    }

    /// The cartridge RAM writes reported since the last call, oldest first; they are
    /// forgotten.
    pub fn take_ram_changes(&mut self) -> (r: Vec<(usize, u8)>)
        ensures
            r@ == old(self)@.ram_changes,
            final(self)@ == (MemoryView { ram_changes: Seq::empty(), ..old(self)@ }),
    {
        let mut r = Vec::new();
        std::mem::swap(&mut r, &mut self.ram_changes);
        r
    }

    pub fn get_sound(&self) -> (r: &Sound)
        ensures
            r@ == self@.sound,
    {
        &self.sound
    }

    /// Runs the audio unit (see `SoundView::run`).
    pub fn step_sound(&mut self, cycles: i32) -> (r: bool)
        requires
            old(self)@.wf(),
            cycles >= 0,
        ensures
            (final(self)@.sound, r) == old(self)@.sound.run(cycles as nat),
            final(self)@ == (MemoryView { sound: final(self)@.sound, ..old(self)@ }),
            final(self)@.wf(),
    {
        self.sound.step(cycles)
    }

    pub fn div_cycles(&self) -> (r: i32)
        ensures
            r == self@.div_cycles,
    {
        self.div_cycles
    }

    pub fn set_div_cycles(&mut self, cycles: i32)
        requires
            old(self)@.wf(),
            0 <= cycles < 256,
        ensures
            final(self)@ == (MemoryView { div_cycles: cycles, ..old(self)@ }),
            final(self)@.wf(),
    {
        self.div_cycles = cycles;
    }

    pub fn tima_cycles(&self) -> (r: i32)
        ensures
            r == self@.tima_cycles,
    {
        self.tima_cycles
    }

    pub fn set_tima_cycles(&mut self, cycles: i32)
        requires
            old(self)@.wf(),
            0 <= cycles < 1024,
        ensures
            final(self)@ == (MemoryView { tima_cycles: cycles, ..old(self)@ }),
            final(self)@.wf(),
    {
        self.tima_cycles = cycles;
    }
}

impl MemoryView {
    /// The two memories agree on everything but cartridge, video and work RAM.
    pub open spec fn same_registers(self, other: MemoryView) -> bool {
        &&& other.high_ram == self.high_ram
        &&& other.hdma_source == self.hdma_source
        &&& other.hdma_destination == self.hdma_destination
        &&& other.hdma_bytes == self.hdma_bytes
        &&& other.hdma_enabled == self.hdma_enabled
        &&& other.lcd_status_mode == self.lcd_status_mode
        &&& other.is_cgb == self.is_cgb
        &&& other.vram_bank == self.vram_bank
        &&& other.wram_bank == self.wram_bank
        &&& other.sound == self.sound
        &&& other.oam == self.oam
        &&& other.bg_palettes == self.bg_palettes
        &&& other.sprite_palettes == self.sprite_palettes
        &&& other.scan_line == self.scan_line
        &&& other.irq48_signal == self.irq48_signal
        &&& other.screen_disabled == self.screen_disabled
        &&& other.gpu_cycles == self.gpu_cycles
        &&& other.div_cycles == self.div_cycles
        &&& other.tima_cycles == self.tima_cycles
        &&& other.joypad_state == self.joypad_state
    }

    /// The enabled and requested interrupt of highest priority.
    pub open spec fn pending_interrupt(self) -> Option<Interrupt> {
        let check = self.load(0xFFFF) & (self.load(0xFF0F) | 0xE0);
        if bit_set_spec(check, 0) {
            Some(Interrupt::Vblank)
        } else if bit_set_spec(check, 1) {
            Some(Interrupt::Lcd)
        } else if bit_set_spec(check, 2) {
            Some(Interrupt::Timer)
        } else if bit_set_spec(check, 3) {
            Some(Interrupt::Serial)
        } else if bit_set_spec(check, 4) {
            Some(Interrupt::Joypad)
        } else {
            None
        }
    }
}

proof fn lemma_dest_bits(d: u16)
    by (bit_vector)
    ensures
        0x8000 <= (d & 0x1FF0) | 0x8000 <= 0x9FF0,
        d & 0xFFF0 <= 0xFFF0,
{
}

proof fn lemma_and_byte(x: u16)
    by (bit_vector)
    ensures
        (x & 0xFF) as u8 == x % 256,
        x & 0xFF <= 0xFF,
{
}

/// Bounds of the palette number and color number fields of a palette index register.
pub proof fn lemma_palette_bits(v: u8)
    by (bit_vector)
    ensures
        (v >> 3u8) & 0x07 <= 7,
        (v >> 1u8) & 0x03 <= 3,
{
}

/// A write that is possible on the memory before the first byte of a word is written
/// stays possible after it.
proof fn lemma_write_ok_after(old: MemoryView, mid: MemoryView, index: u16, low: u8, high: u8)
    requires
        old.wf(),
        writes(old, mid, index, low),
        old.write_ok(add16(index, 1), high),
    ensures
        mid.write_ok(add16(index, 1), high),
{
    reveal(MemoryView::write_at);
    if old.is_cgb && add16(index, 1) == 0xFF55 {
        let now = choose|now: u64| mid == old.write_at(index, low, now);
        assert(mid.hdma_source == old.hdma_source);
        assert(mid.hdma_enabled == old.hdma_enabled);
        assert(mid.lcd_status_mode == old.lcd_status_mode);
    }
}

} // verus!
