use vstd::prelude::*;
use crate::bit_utils::{is_set, bit_set_spec};
use crate::emulator::traits::PixelMapper;
use crate::gpu::{GPU, GpuView, HBLANK, VBLANK, OAM_SCAN, LCD_TRANSFER, LCD_STAT_INDEX, LCD_CONTROL_INDEX};
use crate::gpu::mapped_pixel::{MappedPixel, show_pixels};
use crate::gpu::render::{background_output, background_rendered, scan_line_output, window_rendered};
use crate::mmu::interrupt::Interrupt;

verus! {

/// The unit in horizontal blank: after 204 cycles LY advances; at line 144 vertical
/// blank begins (with its interrupt, the LCD interrupt when STAT bit 4 asks for it,
/// and a frame unless frames are still hidden), otherwise the next line's OAM scan
/// begins (with the LCD interrupt when STAT bit 5 asks for it). The flag says a
/// frame is complete.
pub open spec fn hblank_stepped(g: GpuView) -> (GpuView, bool) {
    if g.cycles_counter >= 204 {
        let g1 = GpuView {
            cycles_counter: (g.cycles_counter - 204) as i32,
            lcd_status_mode: OAM_SCAN,
            scan_line: (g.scan_line + 1) as u8,
            ..g
        }.ly_compared();
        let (g2, vblank) = if g1.scan_line == 144 {
            let g3 = GpuView {
                lcd_status_mode: VBLANK,
                vblank_line: 0,
                aux_cycles_counter: g1.cycles_counter,
                ..g1
            }.requested(Interrupt::Vblank);
            let sig = g3.irq48_signal & 0x09;
            let (g4, sig2) = if bit_set_spec(g3.load(0xFF41), 4) {
                (
                    if !bit_set_spec(sig, 0) && !bit_set_spec(sig, 3) {
                        g3.requested(Interrupt::Lcd)
                    } else {
                        g3
                    },
                    sig | 0x02,
                )
            } else {
                (g3, sig)
            };
            let g5 = GpuView { irq48_signal: sig2 & 0x0E, ..g4 };
            let (g6, vb) = if g5.hide_frames > 0 {
                (GpuView { hide_frames: (g5.hide_frames - 1) as i32, ..g5 }, false)
            } else {
                (g5, true)
            };
            (GpuView { window_line: 0, ..g6 }, vb)
        } else {
            let sig = g1.irq48_signal & 0x09;
            let (g4, sig2) = if bit_set_spec(g1.load(0xFF41), 5) {
                (
                    if sig == 0 {
                        g1.requested(Interrupt::Lcd)
                    } else {
                        g1
                    },
                    sig | 0x04,
                )
            } else {
                (g1, sig)
            };
            (GpuView { irq48_signal: sig2 & 0x0E, ..g4 }, false)
        };
        (g2.stat_updated(), vblank)
    } else {
        (g, false)
    }
}

/// The unit in vertical blank: every 456 cycles the blank line advances, and LY
/// with it up to line 153; late in the last line LY returns to 0; after 4560
/// cycles the OAM scan of line 0 begins (with the LCD interrupt when STAT bit 5
/// asks for it).
pub open spec fn vblank_stepped(g: GpuView, cycles: int) -> GpuView {
    let aux = g.aux_cycles_counter + cycles;
    let g1 = if aux >= 456 {
        let g2 = GpuView { aux_cycles_counter: (aux - 456) as i32, vblank_line: (g.vblank_line + 1) as i32, ..g };
        if g2.vblank_line <= 9 {
            GpuView { scan_line: (g2.scan_line + 1) as u8, ..g2 }.ly_compared()
        } else {
            g2
        }
    } else {
        GpuView { aux_cycles_counter: aux as i32, ..g }
    };
    let g3 = if g1.cycles_counter >= 4104 && g1.aux_cycles_counter >= 4 && g1.scan_line == 153 {
        GpuView { scan_line: 0, ..g1 }.ly_compared()
    } else {
        g1
    };
    if g3.cycles_counter >= 4560 {
        let g4 = GpuView { cycles_counter: (g3.cycles_counter - 4560) as i32, lcd_status_mode: OAM_SCAN, ..g3 }.stat_updated();
        let sig = g4.irq48_signal & 0x0A;
        let (g5, sig2) = if bit_set_spec(g4.load(0xFF41), 5) {
            (
                if sig == 0 {
                    g4.requested(Interrupt::Lcd)
                } else {
                    g4
                },
                sig | 0x04,
            )
        } else {
            (g4, sig)
        };
        GpuView { irq48_signal: sig2 & 0x0D, ..g5 }
    } else {
        g3
    }
}

/// The unit in the OAM scan: after 80 cycles the pixel transfer begins.
pub open spec fn oam_stepped(g: GpuView) -> GpuView {
    if g.cycles_counter >= 80 {
        GpuView {
            cycles_counter: (g.cycles_counter - 80) as i32,
            lcd_status_mode: (g.lcd_status_mode & 0xFC) | 0x03,
            irq48_signal: g.irq48_signal & 0x08,
            scan_line_transferred: false,
            ..g
        }.stat_updated()
    } else {
        g
    }
}

/// Background tiles of the current line drawn four pixels per three cycles, at
/// most `fuel` of them, until the line is complete.
pub open spec fn tiles_drawn(g: GpuView, fuel: nat) -> GpuView
    decreases fuel,
{
    if fuel == 0 || g.tile_cycles_counter < 3 {
        g
    } else {
        let g1 = GpuView {
            pixel_counter: (g.pixel_counter + 4) as i32,
            tile_cycles_counter: (g.tile_cycles_counter - 3) as i32,
            ..background_rendered(g, g.scan_line as int, g.pixel_counter as int, 4)
        };
        if g1.pixel_counter >= 160 {
            g1
        } else {
            tiles_drawn(g1, (fuel - 1) as nat)
        }
    }
}

/// The pixels shown while `tiles_drawn(g, fuel)` draws its tiles, in order.
pub open spec fn tiles_output(g: GpuView, fuel: nat) -> Seq<MappedPixel>
    decreases fuel,
{
    if fuel == 0 || g.tile_cycles_counter < 3 {
        Seq::empty()
    } else {
        let shown = background_output(g, g.scan_line as int, g.pixel_counter as int, 4);
        let g1 = GpuView {
            pixel_counter: (g.pixel_counter + 4) as i32,
            tile_cycles_counter: (g.tile_cycles_counter - 3) as i32,
            ..background_rendered(g, g.scan_line as int, g.pixel_counter as int, 4)
        };
        if g1.pixel_counter >= 160 {
            shown
        } else {
            shown + tiles_output(g1, (fuel - 1) as nat)
        }
    }
}

/// The pixels shown during `lcd_transfer_stepped(g, cycles)`: the background
/// tiles drawn, then, when the line is finished, its window and sprites.
pub open spec fn lcd_transfer_output(g: GpuView, cycles: int) -> Seq<MappedPixel> {
    let (g1, tiles) = if g.pixel_counter < 160 {
        let g2 = GpuView { tile_cycles_counter: (g.tile_cycles_counter + cycles) as i32, ..g };
        if !g2.screen_disabled && g2.display_on() {
            (tiles_drawn(g2, 40), tiles_output(g2, 40))
        } else {
            (g2, Seq::empty())
        }
    } else {
        (g, Seq::empty())
    };
    if g1.cycles_counter >= 160 && !g1.scan_line_transferred {
        tiles + scan_line_output(g1, g1.scan_line as int)
    } else {
        tiles
    }
}

/// The unit in the pixel transfer: background pixels are drawn as the cycles allow;
/// after 160 cycles the window and sprites complete the line; after 172 cycles
/// horizontal blank begins (with the LCD interrupt when STAT bit 3 asks for it).
pub open spec fn lcd_transfer_stepped(g: GpuView, cycles: int) -> GpuView {
    let g1 = if g.pixel_counter < 160 {
        let g2 = GpuView { tile_cycles_counter: (g.tile_cycles_counter + cycles) as i32, ..g };
        if !g2.screen_disabled && g2.display_on() {
            tiles_drawn(g2, 40)
        } else {
            g2
        }
    } else {
        g
    };
    let g3 = if g1.cycles_counter >= 160 && !g1.scan_line_transferred {
        let g4 = if !g1.screen_disabled && g1.display_on() {
            window_rendered(g1, g1.scan_line as int)
        } else {
            g1
        };
        GpuView { scan_line_transferred: true, ..g4 }
    } else {
        g1
    };
    if g3.cycles_counter >= 172 {
        let g4 = GpuView {
            pixel_counter: 0,
            cycles_counter: (g3.cycles_counter - 172) as i32,
            lcd_status_mode: HBLANK,
            tile_cycles_counter: 0,
            ..g3
        }.stat_updated();
        let sig = g4.irq48_signal & 0x08;
        if bit_set_spec(g4.load(0xFF41), 3) {
            let g5 = if !bit_set_spec(sig, 3) {
                g4.requested(Interrupt::Lcd)
            } else {
                g4
            };
            GpuView { irq48_signal: sig | 0x01, ..g5 }
        } else {
            GpuView { irq48_signal: sig, ..g4 }
        }
    } else {
        g3
    }
}

/// The screen coming on after its delay: mode 0 at line 0 with everything reset and
/// three frames hidden; the LCD interrupt when STAT bit 5 asks for it; LY compared.
pub open spec fn screen_started(g: GpuView) -> GpuView {
    let g1 = GpuView {
        hide_frames: 3,
        vblank_line: 0,
        tile_cycles_counter: 0,
        screen_disabled: false,
        lcd_status_mode: 0,
        scan_line: 0,
        irq48_signal: 0,
        screen_enable_delay_cycles: 0,
        cycles_counter: 0,
        aux_cycles_counter: 0,
        window_line: 0,
        pixel_counter: 0,
        ..g
    };
    let g2 = if bit_set_spec(g1.load(0xFF41), 5) {
        GpuView { irq48_signal: g1.irq48_signal | 0x04, ..g1.requested(Interrupt::Lcd) }
    } else {
        g1
    };
    g2.ly_compared()
}

/// The unit after `cycles` cycles, and whether a frame is complete: the current
/// mode advances; while the screen is off, a pending switch-on counts down, and
/// without one a frame completes every 70224 cycles.
pub open spec fn stepped(g: GpuView, cycles: int) -> (GpuView, bool) {
    let g0 = GpuView { cycles_counter: (g.cycles_counter + cycles) as i32, ..g };
    if !g0.screen_disabled {
        if g0.lcd_status_mode == HBLANK {
            hblank_stepped(g0)
        } else if g0.lcd_status_mode == VBLANK {
            (vblank_stepped(g0, cycles), false)
        } else if g0.lcd_status_mode == OAM_SCAN {
            (oam_stepped(g0), false)
        } else {
            (lcd_transfer_stepped(g0, cycles), false)
        }
    } else if g0.screen_enable_delay_cycles > 0 {
        let d = g0.screen_enable_delay_cycles - cycles;
        if d <= 0 {
            (screen_started(GpuView { screen_enable_delay_cycles: d as i32, ..g0 }), false)
        } else {
            (GpuView { screen_enable_delay_cycles: d as i32, ..g0 }, false)
        }
    } else if g0.cycles_counter >= 70224 {
        (GpuView { cycles_counter: (g0.cycles_counter - 70224) as i32, ..g0 }, true)
    } else {
        (g0, false)
    }
}

/// The pixels shown during `stepped(g, cycles)`, in order: only the pixel transfer
/// shows any.
pub open spec fn step_output(g: GpuView, cycles: int) -> Seq<MappedPixel> {
    let g0 = GpuView { cycles_counter: (g.cycles_counter + cycles) as i32, ..g };
    if !g0.screen_disabled && g0.lcd_status_mode != HBLANK && g0.lcd_status_mode != VBLANK
        && g0.lcd_status_mode != OAM_SCAN {
        lcd_transfer_output(g0, cycles)
    } else {
        Seq::empty()
    }
}

/// A step of `cycles` cycles can be carried out: no counter overflows, LY does not
/// pass 255, and a line is drawn only when LY is on screen.
pub open spec fn step_ok(g: GpuView, cycles: int) -> bool {
    let cc = g.cycles_counter + cycles;
    &&& 0 <= cycles
    &&& cc <= i32::MAX
    &&& !g.screen_disabled ==> {
        if g.lcd_status_mode == HBLANK {
            cc >= 204 ==> g.scan_line < 255
        } else if g.lcd_status_mode == VBLANK {
            &&& g.aux_cycles_counter + cycles <= i32::MAX
            &&& g.aux_cycles_counter + cycles >= 456 ==> g.vblank_line < i32::MAX && (g.vblank_line < 9
                ==> g.scan_line < 255)
        } else if g.lcd_status_mode == LCD_TRANSFER {
            &&& g.pixel_counter < 160 ==> g.tile_cycles_counter + cycles <= i32::MAX
            &&& g.scan_line < 144
        } else {
            true
        }
    }
}

proof fn lemma_mode_bits(mode: u8)
    by (bit_vector)
    requires
        mode <= 3,
    ensures
        (mode & 0xFC) | 0x03 == 3,
{
}

proof fn lemma_tiles_drawn_wf(g: GpuView, fuel: nat)
    requires
        g.wf(),
        g.scan_line < 144,
        g.pixel_counter < 160,
    ensures
        tiles_drawn(g, fuel).wf(),
        tiles_drawn(g, fuel).scan_line == g.scan_line,
        tiles_drawn(g, fuel).cycles_counter == g.cycles_counter,
        tiles_drawn(g, fuel).scan_line_transferred == g.scan_line_transferred,
        tiles_drawn(g, fuel).screen_disabled == g.screen_disabled,
        tiles_drawn(g, fuel).high_ram == g.high_ram,
    decreases fuel,
{
    if fuel > 0 && g.tile_cycles_counter >= 3 {
        let g1 = GpuView {
            pixel_counter: (g.pixel_counter + 4) as i32,
            tile_cycles_counter: (g.tile_cycles_counter - 3) as i32,
            ..background_rendered(g, g.scan_line as int, g.pixel_counter as int, 4)
        };
        if g1.pixel_counter < 160 {
            lemma_tiles_drawn_wf(g1, (fuel - 1) as nat);
        }
    }
}

impl GPU {
    fn step_hblank(&mut self) -> (vblank: bool)
        requires
            old(self)@.wf(),
            old(self)@.cycles_counter >= 204 ==> old(self)@.scan_line < 255,
        ensures
            (final(self)@, vblank) == hblank_stepped(old(self)@),
            final(self)@.wf(),
    {
        let mut vblank = false;
        if self.cycles_counter >= 204 {
            self.cycles_counter -= 204;
            self.lcd_status_mode = OAM_SCAN;
            self.scan_line += 1;
            self.compare_ly_to_lyc();
            if self.scan_line == 144 {
                self.lcd_status_mode = VBLANK;
                self.vblank_line = 0;
                self.aux_cycles_counter = self.cycles_counter;
                self.request_interrupt(Interrupt::Vblank);
                self.irq48_signal &= 0x09;
                let stat = self.load(LCD_STAT_INDEX);
                if is_set(stat, 4) {
                    if !is_set(self.irq48_signal, 0) && !is_set(self.irq48_signal, 3) {
                        self.request_interrupt(Interrupt::Lcd);
                    }
                    self.irq48_signal |= 0b0000_0010;
                }
                self.irq48_signal &= 0x0E;
                if self.hide_frames > 0 {
                    self.hide_frames -= 1;
                } else {
                    vblank = true;
                }
                self.window_line = 0;
            } else {
                self.irq48_signal &= 0x09;
                let stat = self.load(LCD_STAT_INDEX);
                if is_set(stat, 5) {
                    if self.irq48_signal == 0 {
                        self.request_interrupt(Interrupt::Lcd);
                    }
                    self.irq48_signal |= 0b0000_0100;
                }
                self.irq48_signal &= 0x0E;
            }
            self.update_stat_register();
        }
        vblank
    }

    #[verifier::rlimit(60)]
    #[verifier::spinoff_prover]
    fn step_vblank(&mut self, cycles: i32)
        requires
            old(self)@.wf(),
            0 <= cycles,
            old(self)@.aux_cycles_counter + cycles <= i32::MAX,
            old(self)@.aux_cycles_counter + cycles >= 456 ==> old(self)@.vblank_line < i32::MAX && (
            old(self)@.vblank_line < 9 ==> old(self)@.scan_line < 255),
        ensures
            final(self)@ == vblank_stepped(old(self)@, cycles as int),
            final(self)@.wf(),
    {
        self.aux_cycles_counter += cycles;
        if self.aux_cycles_counter >= 456 {
            self.aux_cycles_counter -= 456;
            self.vblank_line += 1;
            if self.vblank_line <= 9 {
                self.scan_line += 1;
                self.compare_ly_to_lyc();
            }
        }
        if self.cycles_counter >= 4104 && self.aux_cycles_counter >= 4 && self.scan_line == 153 {
            self.scan_line = 0;
            self.compare_ly_to_lyc();
        }
        if self.cycles_counter >= 4560 {
            self.cycles_counter -= 4560;
            self.lcd_status_mode = OAM_SCAN;
            self.update_stat_register();
            self.irq48_signal &= 0x0A;
            let stat = self.load(LCD_STAT_INDEX);
            if is_set(stat, 5) {
                if self.irq48_signal == 0 {
                    self.request_interrupt(Interrupt::Lcd);
                }
                self.irq48_signal |= 0b0000_0100;
            }
            self.irq48_signal &= 0x0D;
        }
    }

    fn step_oam_scan(&mut self)
        requires
            old(self)@.wf(),
        ensures
            final(self)@ == oam_stepped(old(self)@),
            final(self)@.wf(),
    {
        if self.cycles_counter >= 80 {
            self.cycles_counter -= 80;
            proof {
                lemma_mode_bits(self.lcd_status_mode);
            }
            self.lcd_status_mode = (self.lcd_status_mode & 0b1111_1100) | 0b11;
            self.irq48_signal &= 0x08;
            self.scan_line_transferred = false;
            self.update_stat_register();
        }
    }

    fn step_lcd_transfer(&mut self, cycles: i32, out: &mut Vec<MappedPixel>)
        requires
            old(self)@.wf(),
            0 <= cycles,
            old(self)@.pixel_counter < 160 ==> old(self)@.tile_cycles_counter + cycles <= i32::MAX,
            old(self)@.scan_line < 144,
        ensures
            final(self)@ == lcd_transfer_stepped(old(self)@, cycles as int),
            final(self)@.wf(),
            final(out)@ == old(out)@ + lcd_transfer_output(old(self)@, cycles as int),
    {
        let ghost g0 = self@;
        let ghost out0 = out@;
        if self.pixel_counter < 160 {
            self.tile_cycles_counter += cycles;
            let lcdc = self.load(LCD_CONTROL_INDEX);
            if !self.screen_disabled && lcdc & 0x80 != 0 {
                let ghost g2 = self@;
                let ghost mut i: nat = 0;
                while self.tile_cycles_counter >= 3
                    invariant_except_break
                        self@.wf(),
                        self@.scan_line < 144,
                        self@.pixel_counter < 160,
                        self@.pixel_counter == g2.pixel_counter + 4 * i,
                        0 <= g2.pixel_counter,
                        i <= 40,
                        tiles_drawn(self@, (40 - i) as nat) == tiles_drawn(g2, 40),
                        out@ + tiles_output(self@, (40 - i) as nat) == out0 + tiles_output(g2, 40),
                    ensures
                        self@.wf(),
                        self@ == tiles_drawn(g2, 40),
                        out@ == out0 + tiles_output(g2, 40),
                    decreases self@.tile_cycles_counter,
                {
                    let ghost before = self@;
                    let ghost out_before = out@;
                    self.render_background(self.scan_line as i32, self.pixel_counter, 4, out);
                    self.pixel_counter += 4;
                    self.tile_cycles_counter -= 3;
                    proof {
                        assert(tiles_drawn(before, (40 - i) as nat) == if self.pixel_counter >= 160 {
                            self@
                        } else {
                            tiles_drawn(self@, (40 - i - 1) as nat)
                        });
                        let shown = background_output(before, before.scan_line as int, before.pixel_counter as int, 4);
                        assert(out@ == out_before + shown);
                        assert(tiles_output(before, (40 - i) as nat) == if self.pixel_counter >= 160 {
                            shown
                        } else {
                            shown + tiles_output(self@, (40 - i - 1) as nat)
                        });
                        if self.pixel_counter >= 160 {
                            assert(out@ =~= out0 + tiles_output(g2, 40));
                        } else {
                            assert(out@ + tiles_output(self@, (40 - i - 1) as nat) =~= out0 + tiles_output(g2, 40));
                        }
                        i = i + 1;
                    }
                    if self.pixel_counter >= 160 {
                        break;
                    }
                }
                proof {
                    lemma_tiles_drawn_wf(g2, 40);
                }
            }
        }
        let ghost out1 = out@;
        if self.cycles_counter >= 160 && !self.scan_line_transferred {
            self.scan_line(self.scan_line as i32, out);
            self.scan_line_transferred = true;
        }
        if self.cycles_counter >= 172 {
            self.pixel_counter = 0;
            self.cycles_counter -= 172;
            self.lcd_status_mode = 0;
            self.tile_cycles_counter = 0;
            self.update_stat_register();
            self.irq48_signal &= 0x08;
            let stat = self.load(LCD_STAT_INDEX);
            if is_set(stat, 3) {
                if !is_set(self.irq48_signal, 3) {
                    self.request_interrupt(Interrupt::Lcd);
                }
                self.irq48_signal |= 0b0000_0001;
            }
        }
    }

    /// Advances the unit by `cycles` cycles and hands the pixels it shows to
    /// `pixel_mapper`, in order (those of `step_pixels`); the result says a frame is
    /// complete.
    pub fn step<T: PixelMapper>(&mut self, cycles: i32, pixel_mapper: &mut T) -> (vblank: bool)
        requires
            old(self)@.wf(),
            step_ok(old(self)@, cycles as int),
        ensures
            (final(self)@, vblank) == stepped(old(self)@, cycles as int),
            final(self)@.wf(),
    {
        let (vblank, pixels) = self.step_pixels(cycles);
        show_pixels(&pixels, pixel_mapper);
        vblank
    }

    /// Advances the unit by `cycles` cycles; gives whether a frame is complete and
    /// the pixels shown meanwhile, in order.
    pub fn step_pixels(&mut self, cycles: i32) -> (r: (bool, Vec<MappedPixel>))
        requires
            old(self)@.wf(),
            step_ok(old(self)@, cycles as int),
        ensures
            (final(self)@, r.0) == stepped(old(self)@, cycles as int),
            r.1@ == step_output(old(self)@, cycles as int),
            final(self)@.wf(),
    {
        let mut out: Vec<MappedPixel> = Vec::new();
        let mut vblank = false;
        self.cycles_counter += cycles;
        if !self.screen_disabled {
            if self.lcd_status_mode == HBLANK {
                vblank = self.step_hblank();
            } else if self.lcd_status_mode == VBLANK {
                self.step_vblank(cycles);
            } else if self.lcd_status_mode == OAM_SCAN {
                self.step_oam_scan();
            } else {
                self.step_lcd_transfer(cycles, &mut out);
                assert(out@ =~= Seq::empty() + lcd_transfer_output(
                    GpuView { cycles_counter: (old(self)@.cycles_counter + cycles) as i32, ..old(self)@ },
                    cycles as int,
                ));
            }
        } else if self.screen_enable_delay_cycles > 0 {
            self.screen_enable_delay_cycles -= cycles;
            if self.screen_enable_delay_cycles <= 0 {
                self.hide_frames = 3;
                self.vblank_line = 0;
                self.tile_cycles_counter = 0;
                self.screen_disabled = false;
                self.lcd_status_mode = 0;
                self.scan_line = 0;
                self.irq48_signal = 0;
                self.screen_enable_delay_cycles = 0;
                self.cycles_counter = 0;
                self.aux_cycles_counter = 0;
                self.window_line = 0;
                self.pixel_counter = 0;
                let stat = self.load(LCD_STAT_INDEX);
                if is_set(stat, 5) {
                    self.request_interrupt(Interrupt::Lcd);
                    self.irq48_signal |= 0b0000_0100;
                }
                self.compare_ly_to_lyc();
            }
        } else if self.cycles_counter >= 70224 {
            self.cycles_counter -= 70224;
            vblank = true;
        }
        (vblank, out)
    }
}

/// While the screen is off with no switch-on pending, a frame completes each time
/// the cycle count passes 70224 cycles, the count keeps the rest, LY reads 0, and
/// nothing else changes and nothing is shown.
pub proof fn lemma_screen_off_frames(g: GpuView, cycles: int)
    requires
        g.screen_disabled,
        g.screen_enable_delay_cycles <= 0,
        0 <= g.cycles_counter < 70224,
        0 <= cycles < 70224,
    ensures
        stepped(g, cycles).1 == (g.cycles_counter + cycles >= 70224),
        stepped(g, cycles).0 == (GpuView { cycles_counter: ((g.cycles_counter + cycles) % 70224) as i32, ..g }),
        0 <= stepped(g, cycles).0.cycles_counter < 70224,
        stepped(g, cycles).0.read(0xFF44) == 0,
        step_output(g, cycles) == Seq::<MappedPixel>::empty(),
{
}

/// With the screen on, a step that completes a frame ends in vertical blank at
/// line 144, and the Vblank interrupt is among those it queued.
pub proof fn lemma_frame_done_in_vertical_blank(g: GpuView, cycles: int)
    requires
        !g.screen_disabled,
        stepped(g, cycles).1,
    ensures
        stepped(g, cycles).0.lcd_status_mode == VBLANK,
        stepped(g, cycles).0.scan_line == 144,
        stepped(g, cycles).0.read(0xFF44) == 144,
        exists|k: int|
            g.interrupts.len() <= k < stepped(g, cycles).0.interrupts.len() && #[trigger] stepped(g, cycles).0.interrupts[k]
                == Interrupt::Vblank,
{
    let g0 = GpuView { cycles_counter: (g.cycles_counter + cycles) as i32, ..g };
    let g1 = GpuView {
        cycles_counter: (g0.cycles_counter - 204) as i32,
        lcd_status_mode: OAM_SCAN,
        scan_line: (g0.scan_line + 1) as u8,
        ..g0
    }.ly_compared();
    let k = g1.interrupts.len() as int;
    assert(g1.interrupts.len() >= g.interrupts.len());
    assert(stepped(g, cycles).0.interrupts[k] == Interrupt::Vblank);
}

} // verus!
