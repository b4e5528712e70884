pub mod bg_attributes;
pub mod cgb_color;
pub mod color;
pub mod lcd_control_flag;
pub mod mapped_pixel;
pub mod render;
pub mod sprite_attributes;
pub mod step;

use vstd::prelude::*;
use std::collections::VecDeque;
use crate::bit_utils::{is_set, set_bit, unset_bit, bit_set_spec, with_bit_spec, without_bit_spec};
use crate::gpu::cgb_color::CGBColor;
use crate::gpu::color::Color;
use crate::mmu::interrupt::Interrupt;
use crate::mmu::memory::lemma_palette_bits;

verus! {

pub const LCD_CONTROL_INDEX: u16 = 0xFF40;
pub const LCD_STAT_INDEX: u16 = 0xFF41;
pub const SCROLL_Y_INDEX: u16 = 0xFF42;
pub const SCROLL_X_INDEX: u16 = 0xFF43;
pub const LYC_INDEX: u16 = 0xFF45;
pub const BACKGROUND_PALETTE_INDEX: u16 = 0xFF47;
pub const OBJECT_PALETTE_0_INDEX: u16 = 0xFF48;
pub const OBJECT_PALETTE_1_INDEX: u16 = 0xFF49;
pub const WINDOW_Y_INDEX: u16 = 0xFF4A;
pub const WINDOW_X_INDEX: u16 = 0xFF4B;
pub const CGB_SPRITE_PALETTE_INDEX: u16 = 0xFF6A;
pub const CGB_SPRITE_PALETTE_INDEX_INDEX: u16 = 0xFF6B;
pub const CGB_BACKGROUND_PALETTE_INDEX: u16 = 0xFF68;
pub const CGB_BACKGROUND_PALETTE_INDEX_INDEX: u16 = 0xFF69;
pub const SPRITES_START_INDEX: u16 = 0xFE00;

pub const HBLANK: u8 = 0b00;
pub const VBLANK: u8 = 0b01;
pub const OAM_SCAN: u8 = 0b10;
pub const LCD_TRANSFER: u8 = 0b11;

pub const GAMEBOY_WIDTH: i32 = 160;
pub const GAMEBOY_HEIGHT: i32 = 144;

/// The display unit: its video RAM, sprite attribute table and registers, the
/// mode state machine with its counters, the background line buffer that sprite
/// priority reads, and the interrupts it has raised and not yet handed on.
pub struct GPU {
    is_cgb: bool,
    hide_frames: i32,
    scan_line_transferred: bool,
    vblank_line: i32,
    tile_cycles_counter: i32,
    scan_line: u8,
    irq48_signal: u8,
    screen_disabled: bool,
    lcd_status_mode: u8,
    cycles_counter: i32,
    aux_cycles_counter: i32,
    pixel_counter: i32,
    screen_enable_delay_cycles: i32,
    window_line: i32,
    vram_bank: i32,
    vram: Vec<u8>,
    oam: Vec<u8>,
    high_ram: Vec<u8>,
    cgb_background_palettes: Vec<CGBColor>,
    cgb_sprite_palettes: Vec<CGBColor>,
    background: Vec<u8>,
    interrupt_queue: VecDeque<Interrupt>,
}

#[verifier::ext_equal]
pub struct GpuView {
    pub is_cgb: bool,
    pub hide_frames: i32,
    pub scan_line_transferred: bool,
    pub vblank_line: i32,
    pub tile_cycles_counter: i32,
    pub scan_line: u8,
    pub irq48_signal: u8,
    pub screen_disabled: bool,
    pub lcd_status_mode: u8,
    pub cycles_counter: i32,
    pub aux_cycles_counter: i32,
    pub pixel_counter: i32,
    pub screen_enable_delay_cycles: i32,
    pub window_line: i32,
    pub vram_bank: i32,
    pub vram: Seq<u8>,
    pub oam: Seq<u8>,
    pub high_ram: Seq<u8>,
    /// Eight palettes of four colors, palette-major.
    pub bg_palettes: Seq<CGBColor>,
    pub sprite_palettes: Seq<CGBColor>,
    /// One entry per screen pixel: the background color number, plus 4 when a
    /// color-model tile takes priority over sprites.
    pub background: Seq<u8>,
    /// Interrupts raised and not yet handed on, oldest first.
    pub interrupts: Seq<Interrupt>,
}

impl View for GPU {
    type V = GpuView;

    closed spec fn view(&self) -> GpuView {
        GpuView {
            is_cgb: self.is_cgb,
            hide_frames: self.hide_frames,
            scan_line_transferred: self.scan_line_transferred,
            vblank_line: self.vblank_line,
            tile_cycles_counter: self.tile_cycles_counter,
            scan_line: self.scan_line,
            irq48_signal: self.irq48_signal,
            screen_disabled: self.screen_disabled,
            lcd_status_mode: self.lcd_status_mode,
            cycles_counter: self.cycles_counter,
            aux_cycles_counter: self.aux_cycles_counter,
            pixel_counter: self.pixel_counter,
            screen_enable_delay_cycles: self.screen_enable_delay_cycles,
            window_line: self.window_line,
            vram_bank: self.vram_bank,
            vram: self.vram@,
            oam: self.oam@,
            high_ram: self.high_ram@,
            bg_palettes: self.cgb_background_palettes@,
            sprite_palettes: self.cgb_sprite_palettes@,
            background: self.background@,
            interrupts: self.interrupt_queue@,
        }
    }
}

/// The addresses the display unit answers: video RAM, the sprite table, and its
/// registers.
pub open spec fn gpu_address(index: u16) -> bool {
    ||| 0x8000 <= index <= 0x9FFF
    ||| 0xFE00 <= index <= 0xFEFF
    ||| 0xFF40 <= index <= 0xFF4B
    ||| index == 0xFF4F
    ||| 0xFF68 <= index <= 0xFF6B
}

/// The addresses whose writes the display unit answers (LY at 0xFF44 included).
pub open spec fn gpu_write_address(index: u16) -> bool {
    gpu_address(index)
}

impl GpuView {
    pub open spec fn wf(self) -> bool {
        &&& self.vram.len() == (if self.is_cgb { 0x4000int } else { 0x2000int })
        &&& self.oam.len() == 0x100
        &&& self.high_ram.len() == 0x100
        &&& self.bg_palettes.len() == 32
        &&& self.sprite_palettes.len() == 32
        &&& self.background.len() == 160 * 144
        &&& 0 <= self.vram_bank
        &&& self.vram_bank * 0x2000 + 0x2000 <= self.vram.len()
        &&& self.lcd_status_mode <= 3
        &&& 0 <= self.window_line <= 144
        &&& 0 <= self.pixel_counter <= 160
        &&& self.pixel_counter % 4 == 0
    }

    /// A register as stored.
    pub open spec fn load(self, index: u16) -> u8 {
        self.high_ram[index - 0xFF00]
    }

    pub open spec fn stored(self, index: u16, value: u8) -> GpuView {
        GpuView { high_ram: self.high_ram.update(index - 0xFF00, value), ..self }
    }

    /// The unit with `interrupt` raised.
    pub open spec fn requested(self, interrupt: Interrupt) -> GpuView {
        GpuView { interrupts: self.interrupts.push(interrupt), ..self }
    }

    /// The display bit (7) of LCDC.
    pub open spec fn display_on(self) -> bool {
        self.load(0xFF40) & 0x80 != 0
    }

    /// A byte of video RAM bank `bank`.
    pub open spec fn vram_at(self, index: int, bank: int) -> u8 {
        self.vram[index - 0x8000 + 0x2000 * bank]
    }

    /// The comparison of LY with LYC while the screen is on: bit 2 of STAT records
    /// equality, and equality with the LYC source enabled (STAT bit 6) raises an LCD
    /// interrupt unless one is already signalled.
    pub open spec fn ly_compared(self) -> GpuView {
        if !self.screen_disabled {
            let lyc = self.load(0xFF45);
            let stat = self.load(0xFF41);
            if lyc == self.scan_line {
                let stat1 = with_bit_spec(stat, 2);
                let g = if bit_set_spec(stat1, 6) {
                    let g0 = if self.irq48_signal == 0 {
                        self.requested(Interrupt::Lcd)
                    } else {
                        self
                    };
                    GpuView { irq48_signal: with_bit_spec(self.irq48_signal, 3), ..g0 }
                } else {
                    self
                };
                g.stored(0xFF41, stat1)
            } else {
                GpuView { irq48_signal: without_bit_spec(self.irq48_signal, 3), ..self }.stored(
                    0xFF41,
                    without_bit_spec(stat, 2),
                )
            }
        } else {
            self
        }
    }

    pub open spec fn screen_enabled(self) -> GpuView {
        if self.screen_disabled {
            GpuView { screen_enable_delay_cycles: 244, ..self }
        } else {
            self
        }
    }

    /// The screen switched off: mode 0, counters and LY cleared, STAT mode bits cleared.
    pub open spec fn screen_turned_off(self) -> GpuView {
        GpuView {
            screen_disabled: true,
            lcd_status_mode: 0,
            cycles_counter: 0,
            aux_cycles_counter: 0,
            scan_line: 0,
            irq48_signal: 0,
            ..self.stored(0xFF41, self.load(0xFF41) & 0x7C)
        }
    }

    pub open spec fn window_line_reset(self) -> GpuView {
        let wy = self.load(0xFF4A);
        if self.window_line == 0 && self.scan_line < 144 && self.scan_line > wy {
            GpuView { window_line: 144, ..self }
        } else {
            self
        }
    }

    /// A write to LCDC: turning the window on resets the window line, and bit 7
    /// switches the screen on or off.
    pub open spec fn lcd_control_written(self, value: u8) -> GpuView {
        let current = self.load(0xFF40);
        let g0 = self.stored(0xFF40, value);
        let g1 = if current & 0x20 == 0 && value & 0x20 != 0 {
            g0.window_line_reset()
        } else {
            g0
        };
        if value & 0x80 != 0 {
            g1.screen_enabled()
        } else {
            g1.screen_turned_off()
        }
    }

    /// A write to STAT: bits 3..6 are written and bits 0..2 kept; with the screen on, a
    /// source enabled for the current mode raises an LCD interrupt unless one is
    /// already signalled, and LY is compared with LYC.
    pub open spec fn lcd_status_written(self, value: u8) -> GpuView {
        let current = self.load(0xFF41) & 0x07;
        let new_stat = (value & 0x78) | (current & 0x07);
        let g0 = self.stored(0xFF41, new_stat);
        let signal = self.irq48_signal & ((new_stat >> 3u8) & 0x0F);
        let g1 = GpuView { irq48_signal: signal, ..g0 };
        let mode = self.lcd_status_mode;
        if g1.load(0xFF40) & 0x80 != 0 {
            let c0 = bit_set_spec(new_stat, 3) && mode == 0;
            let g2 = if c0 && signal == 0 {
                g1.requested(Interrupt::Lcd)
            } else {
                g1
            };
            let s1 = if c0 {
                with_bit_spec(signal, 0)
            } else {
                signal
            };
            let c1 = bit_set_spec(new_stat, 4) && mode == 1;
            let g3 = if c1 && s1 == 0 {
                g2.requested(Interrupt::Lcd)
            } else {
                g2
            };
            let s2 = if c1 {
                with_bit_spec(s1, 1)
            } else {
                s1
            };
            let g4 = if bit_set_spec(new_stat, 5) && mode == 2 && s2 == 0 {
                g3.requested(Interrupt::Lcd)
            } else {
                g3
            };
            g4.ly_compared()
        } else {
            g1
        }
    }

    pub open spec fn scanline_written(self, value: u8) -> GpuView {
        if bit_set_spec(self.scan_line, 7) && !bit_set_spec(value, 7) {
            self.screen_turned_off()
        } else {
            self
        }
    }

    pub open spec fn lyc_written(self, value: u8) -> GpuView {
        if self.load(0xFF45) != value {
            let g = self.stored(0xFF45, value);
            if g.load(0xFF40) & 0x80 != 0 {
                g.ly_compared()
            } else {
                g
            }
        } else {
            self
        }
    }

    /// The palette data register refreshed from the color the index register points at.
    pub open spec fn palette_data_refreshed(self, background: bool, value: u8) -> GpuView {
        let hl = bit_set_spec(value, 0);
        let index = (value >> 1u8) & 0x03;
        let pal = (value >> 3u8) & 0x07;
        let color = if background {
            self.bg_palettes[pal * 4 + index]
        } else {
            self.sprite_palettes[pal * 4 + index]
        };
        let data = if hl {
            (((color.blue & 0x1F) << 2u8) | ((color.green >> 3u8) & 0x03)) & 0x7F
        } else {
            (color.red & 0x1F) | ((color.green & 0x07) << 5u8)
        };
        self.stored(if background { 0xFF69u16 } else { 0xFF6Bu16 }, data)
    }

    /// A write to a palette data register: the index register advances when its bit 7
    /// is set, and the low or high half of the addressed color takes the value.
    pub open spec fn palette_data_written(self, background: bool, value: u8) -> GpuView {
        let ps = self.load(if background { 0xFF68u16 } else { 0xFF6Au16 });
        let hl = bit_set_spec(ps, 0);
        let index = (ps >> 1u8) & 0x03;
        let pal = (ps >> 3u8) & 0x07;
        let g = if bit_set_spec(ps, 7) {
            let ps1 = (ps & 0x80) | ((((ps & 0x3F) + 1) as u8) & 0x3F);
            self.stored(if background { 0xFF68u16 } else { 0xFF6Au16 }, ps1).palette_data_refreshed(background, ps1)
        } else {
            self
        };
        let k = pal * 4 + index;
        let old_color = if background {
            g.bg_palettes[k]
        } else {
            g.sprite_palettes[k]
        };
        let color = if hl {
            CGBColor { blue: (value >> 2u8) & 0x1F, green: (old_color.green & 0x07) | ((value & 0x03) << 3u8), ..old_color }
        } else {
            CGBColor { red: value & 0x1F, green: (old_color.green & 0x18) | ((value >> 5u8) & 0x07), ..old_color }
        };
        if background {
            GpuView { bg_palettes: g.bg_palettes.update(k, color), ..g }
        } else {
            GpuView { sprite_palettes: g.sprite_palettes.update(k, color), ..g }
        }
    }

    /// STAT with its mode bits set to the current mode.
    pub open spec fn stat_updated(self) -> GpuView {
        self.stored(0xFF41, (self.load(0xFF41) & 0xFC) | (self.lcd_status_mode & 0x3))
    }

    /// A byte of the unit as the processor reads it.
    pub open spec fn read(self, index: u16) -> u8 {
        if 0x8000 <= index <= 0x9FFF {
            self.vram_at(index as int, self.vram_bank as int)
        } else if 0xFE00 <= index <= 0xFEFF {
            self.oam[index - 0xFE00]
        } else if index == 0xFF41 {
            self.load(index) | 0x80
        } else if index == 0xFF44 {
            if self.screen_disabled {
                0
            } else {
                self.scan_line
            }
        } else if index == 0xFF68 || index == 0xFF6A {
            if self.is_cgb {
                self.load(index) | 0x40
            } else {
                0xC0
            }
        } else if index == 0xFF69 || index == 0xFF6B {
            if self.is_cgb {
                self.load(index) | 0xF8
            } else {
                0xFF
            }
        } else if index == 0xFF4F {
            self.load(index) | 0xFE
        } else {
            self.load(index)
        }
    }

    /// The unit after the processor writes `value` at `index`.
    pub open spec fn written(self, index: u16, value: u8) -> GpuView {
        if 0x8000 <= index <= 0x9FFF {
            GpuView {
                vram: self.vram.update(index - 0x8000 + 0x2000 * self.vram_bank, value),
                ..self
            }
        } else if 0xFE00 <= index <= 0xFEFF {
            GpuView { oam: self.oam.update(index - 0xFE00, value), ..self }
        } else if index == 0xFF40 {
            self.lcd_control_written(value)
        } else if index == 0xFF41 {
            self.lcd_status_written(value)
        } else if index == 0xFF44 {
            self.scanline_written(value)
        } else if index == 0xFF45 {
            self.lyc_written(value)
        } else if index == 0xFF4F {
            let g = self.stored(index, value);
            if self.is_cgb {
                GpuView { vram_bank: (value & 1) as i32, ..g }
            } else {
                g
            }
        } else if index == 0xFF68 || index == 0xFF6A {
            let g = self.stored(index, value);
            if self.is_cgb {
                g.palette_data_refreshed(index == 0xFF68, value)
            } else {
                g
            }
        } else if index == 0xFF69 || index == 0xFF6B {
            let g = self.stored(index, value);
            if self.is_cgb {
                g.palette_data_written(index == 0xFF69, value)
            } else {
                g
            }
        } else {
            self.stored(index, value)
        }
    }
}

/// The shade that palette `palette` gives color number `pixel` (0..=3).
pub open spec fn gb_color(palette: u8, pixel: u8) -> Color {
    let bits = (palette as int / pow4(pixel)) % 4;
    if bits == 0 {
        Color::White
    } else if bits == 1 {
        Color::LightGray
    } else if bits == 2 {
        Color::DarkGray
    } else {
        Color::Black
    }
}

/// 4 to the power `k`, for `k` in 0..=3.
pub open spec fn pow4(k: u8) -> int {
    if k == 0 {
        1
    } else if k == 1 {
        4
    } else if k == 2 {
        16
    } else {
        64
    }
}

/// A five-bit color component scaled to a byte (the low byte of the product
/// for larger values).
pub open spec fn component_byte(c: u8) -> u8 {
    ((c as int * 0xFF / 0x1F) as u16) as u8
}

pub open spec fn rgb_color(c: CGBColor) -> CGBColor {
    CGBColor { red: component_byte(c.red), green: component_byte(c.green), blue: component_byte(c.blue) }
}

impl GpuView {
    /// The unit as the boot program leaves it (see `GPU::new`): in vertical blank at
    /// line 144 with the screen on, everything cleared, all palette colors black.
    pub open spec fn booted(self, is_cgb: bool) -> bool {
        &&& self.wf()
        &&& self.is_cgb == is_cgb
        &&& self.scan_line == 144
        &&& self.lcd_status_mode == VBLANK
        &&& !self.screen_disabled
        &&& self.vram == Seq::new(self.vram.len(), |i: int| 0u8)
        &&& self.oam == Seq::new(0x100, |i: int| 0u8)
        &&& self.high_ram == Seq::new(0x100, |i: int| 0u8)
        &&& self.interrupts == Seq::<Interrupt>::empty()
        &&& self.hide_frames == 0 && self.vblank_line == 0 && self.tile_cycles_counter == 0
        &&& self.irq48_signal == 0 && self.cycles_counter == 0 && self.aux_cycles_counter == 0
        &&& self.pixel_counter == 0 && self.screen_enable_delay_cycles == 0 && self.window_line == 0
        &&& self.vram_bank == 0 && !self.scan_line_transferred
        &&& self.bg_palettes == Seq::new(32, |k: int| CGBColor { red: 0, green: 0, blue: 0 })
        &&& self.sprite_palettes == Seq::new(32, |k: int| CGBColor { red: 0, green: 0, blue: 0 })
        &&& self.background == Seq::new(160 * 144, |k: int| 0u8)
    }
}

impl GPU {
    /// The unit as the boot program leaves it: in vertical blank at line 144,
    /// everything cleared, all palette colors black.
    pub fn new(is_cgb: bool) -> (r: GPU)
        ensures
            r@.booted(is_cgb),
            r@.wf(),
            r@.is_cgb == is_cgb,
            r@.scan_line == 144,
            r@.lcd_status_mode == VBLANK,
            !r@.screen_disabled,
            r@.vram == Seq::new(r@.vram.len(), |i: int| 0u8),
            r@.oam == Seq::new(0x100, |i: int| 0u8),
            r@.high_ram == Seq::new(0x100, |i: int| 0u8),
            r@.interrupts == Seq::<Interrupt>::empty(),
            r@.hide_frames == 0 && r@.vblank_line == 0 && r@.tile_cycles_counter == 0,
            r@.irq48_signal == 0 && r@.cycles_counter == 0 && r@.aux_cycles_counter == 0,
            r@.pixel_counter == 0 && r@.screen_enable_delay_cycles == 0 && r@.window_line == 0,
            r@.vram_bank == 0 && !r@.scan_line_transferred,
    {
        let vram = if is_cgb {
            vec![0x00u8; 0x2000 * 2]
        } else {
            vec![0x00u8; 0x2000]
        };
        let white = CGBColor { red: 0, green: 0, blue: 0 };
        let r = GPU {
            is_cgb,
            hide_frames: 0,
            scan_line_transferred: false,
            vblank_line: 0,
            tile_cycles_counter: 0,
            scan_line: 144,
            irq48_signal: 0,
            lcd_status_mode: VBLANK,
            screen_disabled: false,
            cycles_counter: 0,
            aux_cycles_counter: 0,
            pixel_counter: 0,
            screen_enable_delay_cycles: 0,
            window_line: 0,
            vram_bank: 0,
            vram,
            oam: vec![0u8; 0x100],
            high_ram: vec![0u8; 0x100],
            cgb_background_palettes: vec![white; 32],
            cgb_sprite_palettes: vec![white; 32],
            background: vec![0u8; 160 * 144],
            interrupt_queue: VecDeque::new(),
        };
        assert(r@.vram =~= Seq::new(r@.vram.len(), |i: int| 0u8));
        assert(r@.oam =~= Seq::new(0x100, |i: int| 0u8));
        assert(r@.high_ram =~= Seq::new(0x100, |i: int| 0u8));
        assert(r@.bg_palettes =~= Seq::new(32, |k: int| CGBColor { red: 0, green: 0, blue: 0 }));
        assert(r@.sprite_palettes =~= Seq::new(32, |k: int| CGBColor { red: 0, green: 0, blue: 0 }));
        assert(r@.background =~= Seq::new(160 * 144, |k: int| 0u8));
        r
    }

    /// Directly loads a register (0xFF00..=0xFFFF); no side effect.
    pub(crate) fn load(&self, address: u16) -> (r: u8)
        requires
            self@.wf(),
            address >= 0xFF00,
        ensures
            r == self@.load(address),
    {
        self.high_ram[(address - 0xFF00) as usize]
    }

    /// Directly stores a register (0xFF00..=0xFFFF); no side effect.
    pub(crate) fn store(&mut self, address: u16, value: u8)
        requires
            old(self)@.wf(),
            address >= 0xFF00,
        ensures
            final(self)@ == old(self)@.stored(address, value),
            final(self)@.wf(),
    {
        self.high_ram.set((address - 0xFF00) as usize, value);
    }

    pub(crate) fn request_interrupt(&mut self, interrupt: Interrupt)
        requires
            old(self)@.wf(),
        ensures
            final(self)@ == old(self)@.requested(interrupt),
            final(self)@.wf(),
    {
        self.interrupt_queue.push_back(interrupt)
    }

    /// Hands on the oldest interrupt raised and not yet handed on.
    pub fn dequeue_interrupt(&mut self) -> (r: Option<Interrupt>)
        ensures
            old(self)@.interrupts.len() == 0 ==> r is None && final(self)@ == old(self)@,
            old(self)@.interrupts.len() > 0 ==> r == Some(old(self)@.interrupts[0])
                && final(self)@ == (GpuView {
                interrupts: old(self)@.interrupts.subrange(1, old(self)@.interrupts.len() as int),
                ..old(self)@
            }),
    {
        self.interrupt_queue.pop_front()
    }

    /// Writes the mode bits of STAT.
    pub(crate) fn update_stat_register(&mut self)
        requires
            old(self)@.wf(),
        ensures
            final(self)@ == old(self)@.stat_updated(),
            final(self)@.wf(),
    {
        let stat = self.load(LCD_STAT_INDEX);
        self.store(LCD_STAT_INDEX, (stat & 0xFC) | (self.lcd_status_mode & 0x3));
    }

    pub(crate) fn compare_ly_to_lyc(&mut self)
        requires
            old(self)@.wf(),
        ensures
            final(self)@ == old(self)@.ly_compared(),
            final(self)@.wf(),
    {
        if !self.screen_disabled {
            let lyc = self.load(LYC_INDEX);
            let mut stat = self.load(LCD_STAT_INDEX);
            if lyc == self.scan_line {
                stat = set_bit(stat, 2);
                if is_set(stat, 6) {
                    if self.irq48_signal == 0 {
                        self.request_interrupt(Interrupt::Lcd);
                    }
                    self.irq48_signal = set_bit(self.irq48_signal, 3);
                }
            } else {
                stat = unset_bit(stat, 2);
                self.irq48_signal = unset_bit(self.irq48_signal, 3);
            }
            self.store(LCD_STAT_INDEX, stat);
        }
    }

    fn do_lcd_control_write(&mut self, value: u8)
        requires
            old(self)@.wf(),
        ensures
            final(self)@ == old(self)@.lcd_control_written(value),
            final(self)@.wf(),
    {
        let current_lcdc = self.load(LCD_CONTROL_INDEX);
        self.store(LCD_CONTROL_INDEX, value);
        if current_lcdc & 0x20 == 0 && value & 0x20 != 0 {
            self.reset_window_line();
        }
        if value & 0x80 != 0 {
            self.enable_screen();
        } else {
            self.disable_screen();
        }
    }

    fn reset_window_line(&mut self)
        requires
            old(self)@.wf(),
        ensures
            final(self)@ == old(self)@.window_line_reset(),
            final(self)@.wf(),
    {
        let wy = self.load(WINDOW_Y_INDEX);
        if (self.window_line == 0) && (self.scan_line < 144) && (self.scan_line > wy) {
            self.window_line = 144;
        }
    }

    fn enable_screen(&mut self)
        requires
            old(self)@.wf(),
        ensures
            final(self)@ == old(self)@.screen_enabled(),
            final(self)@.wf(),
    {
        if self.screen_disabled {
            self.screen_enable_delay_cycles = 244;
        }
    }

    pub(crate) fn disable_screen(&mut self)
        requires
            old(self)@.wf(),
        ensures
            final(self)@ == old(self)@.screen_turned_off(),
            final(self)@.wf(),
    {
        self.screen_disabled = true;
        let mut stat = self.load(LCD_STAT_INDEX);
        stat &= 0x7C;
        self.store(LCD_STAT_INDEX, stat);
        self.lcd_status_mode = 0;
        self.cycles_counter = 0;
        self.aux_cycles_counter = 0;
        self.scan_line = 0;
        self.irq48_signal = 0;
    }

    fn do_lcd_status_write(&mut self, value: u8)
        requires
            old(self)@.wf(),
        ensures
            final(self)@ == old(self)@.lcd_status_written(value),
            final(self)@.wf(),
    {
        let current_stat = self.load(LCD_STAT_INDEX) & 0x07;
        let new_stat = (value & 0x78) | (current_stat & 0x07);
        self.store(LCD_STAT_INDEX, new_stat);
        let lcd_control = self.load(LCD_CONTROL_INDEX);
        let mut signal = self.irq48_signal;
        let mode = self.lcd_status_mode;
        signal &= (new_stat >> 3u8) & 0x0F;
        self.irq48_signal = signal;
        if lcd_control & 0x80 != 0 {
            if is_set(new_stat, 3) && mode == 0 {
                if signal == 0 {
                    self.request_interrupt(Interrupt::Lcd);
                }
                signal = set_bit(signal, 0);
            }
            if is_set(new_stat, 4) && mode == 1 {
                if signal == 0 {
                    self.request_interrupt(Interrupt::Lcd);
                }
                signal = set_bit(signal, 1);
            }
            if is_set(new_stat, 5) && mode == 2 && signal == 0 {
                self.request_interrupt(Interrupt::Lcd);
            }
            self.compare_ly_to_lyc();
        }
    }

    fn do_scanline_write(&mut self, value: u8)
        requires
            old(self)@.wf(),
        ensures
            final(self)@ == old(self)@.scanline_written(value),
            final(self)@.wf(),
    {
        let current_ly = self.scan_line;
        if is_set(current_ly, 7) && !is_set(value, 7) {
            self.disable_screen();
        }
    }

    fn do_lyc_write(&mut self, value: u8)
        requires
            old(self)@.wf(),
        ensures
            final(self)@ == old(self)@.lyc_written(value),
            final(self)@.wf(),
    {
        let current_lyc = self.load(LYC_INDEX);
        if current_lyc != value {
            self.store(LYC_INDEX, value);
            let lcd_control = self.load(LCD_CONTROL_INDEX);
            if lcd_control & 0x80 != 0 {
                self.compare_ly_to_lyc();
            }
        }
    }

    fn switch_cgb_vram_bank(&mut self, value: u8)
        requires
            old(self)@.wf(),
            old(self)@.is_cgb,
        ensures
            final(self)@ == (GpuView { vram_bank: (value & 1) as i32, ..old(self)@ }),
            final(self)@.wf(),
    {
        let bit = value & 1;
        assert(bit <= 1) by (bit_vector)
            requires
                bit == value & 1,
        ;
        self.vram_bank = bit as i32;
    }

    fn palette_index(value: u8) -> (r: usize)
        ensures
            r == ((value >> 3u8) & 0x07) * 4 + ((value >> 1u8) & 0x03),
            r < 32,
    {
        proof {
            lemma_palette_bits(value);
        }
        (((value >> 3u8) & 0x07) as usize) * 4 + (((value >> 1u8) & 0x03) as usize)
    }

    fn update_color_palette(&mut self, background: bool, value: u8)
        requires
            old(self)@.wf(),
        ensures
            final(self)@ == old(self)@.palette_data_refreshed(background, value),
            final(self)@.wf(),
    {
        let hl = is_set(value, 0);
        let k = GPU::palette_index(value);
        let color = if background {
            self.cgb_background_palettes[k]
        } else {
            self.cgb_sprite_palettes[k]
        };
        let final_value = if hl {
            let blue = (color.blue & 0x1F) << 2u8;
            let half_green_hi = (color.green >> 3u8) & 0x03;
            (blue | half_green_hi) & 0x7F
        } else {
            let half_green_low = (color.green & 0x07) << 5u8;
            let red = color.red & 0x1F;
            red | half_green_low
        };
        if background {
            self.store(CGB_BACKGROUND_PALETTE_INDEX_INDEX, final_value);
        } else {
            self.store(CGB_SPRITE_PALETTE_INDEX_INDEX, final_value);
        }
    }

    fn set_color_palette(&mut self, background: bool, value: u8)
        requires
            old(self)@.wf(),
        ensures
            final(self)@ == old(self)@.palette_data_written(background, value),
            final(self)@.wf(),
    {
        let mut ps = if background {
            self.load(CGB_BACKGROUND_PALETTE_INDEX)
        } else {
            self.load(CGB_SPRITE_PALETTE_INDEX)
        };
        let hl = is_set(ps, 0);
        let k = GPU::palette_index(ps);
        let increment = is_set(ps, 7);
        if increment {
            proof {
                crate::bit_utils::lemma_and_bounds_u8(ps, 0x3F);
            }
            let mut address = ps & 0x3F;
            address += 1;
            address &= 0x3F;
            ps = (ps & 0x80) | address;
            if background {
                self.store(CGB_BACKGROUND_PALETTE_INDEX, ps);
            } else {
                self.store(CGB_SPRITE_PALETTE_INDEX, ps);
            }
            self.update_color_palette(background, ps);
        }
        if hl {
            let blue = (value >> 2u8) & 0x1F;
            let half_green_hi = (value & 0x03) << 3u8;
            if background {
                let mut c = self.cgb_background_palettes[k];
                c.blue = blue;
                c.green = (c.green & 0x07) | half_green_hi;
                self.cgb_background_palettes.set(k, c);
            } else {
                let mut c = self.cgb_sprite_palettes[k];
                c.blue = blue;
                c.green = (c.green & 0x07) | half_green_hi;
                self.cgb_sprite_palettes.set(k, c);
            }
        } else {
            let half_green_low = (value >> 5u8) & 0x07;
            let red = value & 0x1F;
            if background {
                let mut c = self.cgb_background_palettes[k];
                c.red = red;
                c.green = (c.green & 0x18) | half_green_low;
                self.cgb_background_palettes.set(k, c);
            } else {
                let mut c = self.cgb_sprite_palettes[k];
                c.red = red;
                c.green = (c.green & 0x18) | half_green_low;
                self.cgb_sprite_palettes.set(k, c);
            }
        }
    }

    /// A byte of video RAM bank `bank`.
    pub(crate) fn read_cgb_lcd_ram(&self, index: u16, bank: i32) -> (r: u8)
        requires
            self@.wf(),
            0x8000 <= index <= 0x9FFF,
            0 <= bank,
            bank * 0x2000 + 0x2000 <= self@.vram.len(),
        ensures
            r == self@.vram_at(index as int, bank as int),
    {
        let offset = 0x2000 * bank as usize;
        let address = index as usize - 0x8000 + offset;
        self.vram[address]
    }

    fn write_cgb_lcd_ram(&mut self, index: u16, value: u8, bank: i32)
        requires
            old(self)@.wf(),
            0x8000 <= index <= 0x9FFF,
            0 <= bank,
            bank * 0x2000 + 0x2000 <= old(self)@.vram.len(),
        ensures
            final(self)@ == (GpuView {
                vram: old(self)@.vram.update(index - 0x8000 + 0x2000 * bank, value),
                ..old(self)@
            }),
            final(self)@.wf(),
    {
        let offset = 0x2000 * bank as usize;
        let address = index as usize - 0x8000 + offset;
        self.vram.set(address, value);
    }

    /// Reads a byte of video RAM, the sprite table or a display register.
    pub fn read_byte(&self, index: u16) -> (r: u8)
        requires
            self@.wf(),
            gpu_address(index),
        ensures
            r == self@.read(index),
    {
        if 0x8000 <= index && index <= 0x9FFF {
            self.read_cgb_lcd_ram(index, self.vram_bank)
        } else if 0xFE00 <= index && index <= 0xFEFF {
            self.oam[(index - 0xFE00) as usize]
        } else if index == 0xFF41 {
            self.load(index) | 0x80
        } else if index == 0xFF44 {
            if self.screen_disabled {
                0x00
            } else {
                self.scan_line
            }
        } else if index == 0xFF68 || index == 0xFF6A {
            if self.is_cgb {
                self.load(index) | 0x40
            } else {
                0xC0
            }
        } else if index == 0xFF69 || index == 0xFF6B {
            if self.is_cgb {
                self.load(index) | 0xF8
            } else {
                0xFF
            }
        } else if index == 0xFF4F {
            self.load(index) | 0xFE
        } else {
            self.load(index)
        }
    }

    /// Writes a byte of video RAM, the sprite table or a display register.
    pub fn write_byte(&mut self, index: u16, value: u8)
        requires
            old(self)@.wf(),
            gpu_address(index),
        ensures
            final(self)@ == old(self)@.written(index, value),
            final(self)@.wf(),
    {
        if 0x8000 <= index && index <= 0x9FFF {
            self.write_cgb_lcd_ram(index, value, self.vram_bank);
        } else if 0xFE00 <= index && index <= 0xFEFF {
            self.oam.set((index - 0xFE00) as usize, value);
        } else if index == 0xFF40 {
            self.do_lcd_control_write(value);
        } else if index == 0xFF41 {
            self.do_lcd_status_write(value);
        } else if index == 0xFF44 {
            self.do_scanline_write(value);
        } else if index == 0xFF45 {
            self.do_lyc_write(value);
        } else if index == 0xFF4F {
            self.store(index, value);
            if self.is_cgb {
                self.switch_cgb_vram_bank(value);
            }
        } else if index == 0xFF68 {
            self.store(index, value);
            if self.is_cgb {
                self.update_color_palette(true, value);
            }
        } else if index == 0xFF69 {
            self.store(index, value);
            if self.is_cgb {
                self.set_color_palette(true, value);
            }
        } else if index == 0xFF6A {
            self.store(index, value);
            if self.is_cgb {
                self.update_color_palette(false, value);
            }
        } else if index == 0xFF6B {
            self.store(index, value);
            if self.is_cgb {
                self.set_color_palette(false, value);
            }
        } else {
            self.store(index, value);
        }
    }

    /// The shade that palette `palette` gives color number `pixel`.
    pub(crate) fn gb_color_from_palette(palette: u8, pixel: u8) -> (r: Color)
        requires
            pixel <= 3,
        ensures
            r == gb_color(palette, pixel),
    {
        let shift: u8 = if pixel == 0 {
            1
        } else if pixel == 1 {
            4
        } else if pixel == 2 {
            16
        } else {
            64
        };
        let color_bits = (palette / shift) % 4;
        if color_bits == 0 {
            Color::White
        } else if color_bits == 1 {
            Color::LightGray
        } else if color_bits == 2 {
            Color::DarkGray
        } else {
            Color::Black
        }
    }

    pub(crate) fn cgb_color_to_byte(color: u8) -> (r: u8)
        ensures
            r == component_byte(color),
    {
        ((color as u16) * 0xFF / 0x1F) as u8
    }

    pub(crate) fn cgb_color_to_rgb_color(color: CGBColor) -> (r: CGBColor)
        ensures
            r == rgb_color(color),
    {
        CGBColor {
            red: GPU::cgb_color_to_byte(color.red),
            green: GPU::cgb_color_to_byte(color.green),
            blue: GPU::cgb_color_to_byte(color.blue),
        }
    }

    pub fn get_lcd_status_mode(&self) -> (r: u8)
        ensures
            r == self@.lcd_status_mode,
    {
        self.lcd_status_mode
    }
}

/// A byte written to video RAM or the sprite table reads back, in the bank that
/// was selected.
pub proof fn lemma_gpu_read_after_write(g: GpuView, index: u16, value: u8)
    requires
        g.wf(),
        0x8000 <= index <= 0x9FFF || 0xFE00 <= index <= 0xFEFF,
    ensures
        g.written(index, value).read(index) == value,
{
}


proof fn lemma_palette_field(p: u8)
    by (bit_vector)
    ensures
        (p / 1) % 4 == (p >> 0u8) & 3,
        (p / 4) % 4 == (p >> 2u8) & 3,
        (p / 16) % 4 == (p >> 4u8) & 3,
        (p / 64) % 4 == (p >> 6u8) & 3,
{
}

/// A monochrome palette register holds a two-bit shade for each color number: color
/// `c` takes bits 2c and 2c + 1, and the shades 0 to 3 are white, light gray, dark
/// gray and black.
pub proof fn lemma_palette_shades(p: u8, c: u8)
    requires
        c <= 3,
    ensures
        ({
            let shade = (p >> (2 * c) as u8) & 3;
            gb_color(p, c) == if shade == 0 {
                Color::White
            } else if shade == 1 {
                Color::LightGray
            } else if shade == 2 {
                Color::DarkGray
            } else {
                Color::Black
            }
        }),
{
    lemma_palette_field(p);
    if c == 0 {
        assert((2 * c) as u8 == 0 && pow4(c) == 1);
    } else if c == 1 {
        assert((2 * c) as u8 == 2 && pow4(c) == 4);
    } else if c == 2 {
        assert((2 * c) as u8 == 4 && pow4(c) == 16);
    } else {
        assert((2 * c) as u8 == 6 && pow4(c) == 64);
    }
}

} // verus!
