use vstd::prelude::*;
use crate::bit_utils::{is_set, bit_set_spec};
use crate::cpu::alu::sext;
use crate::gpu::{GPU, GpuView, gb_color, rgb_color, BACKGROUND_PALETTE_INDEX, LCD_CONTROL_INDEX, SCROLL_X_INDEX,
    SCROLL_Y_INDEX, WINDOW_X_INDEX, WINDOW_Y_INDEX, OBJECT_PALETTE_0_INDEX, OBJECT_PALETTE_1_INDEX,
    SPRITES_START_INDEX, GAMEBOY_HEIGHT, GAMEBOY_WIDTH};
use crate::gpu::cgb_color::CGBColor;
use crate::gpu::color::Color;
use crate::gpu::mapped_pixel::MappedPixel;

verus! {

/// The color number (0..=3) of pixel `px` (0 is the leftmost) of a tile row whose
/// two bit planes are `b1` and `b2`.
pub open spec fn tile_pixel(b1: u8, b2: u8, px: int) -> u8 {
    ((if bit_set_spec(b1, (7 - px) as u8) {
        1int
    } else {
        0int
    }) + (if bit_set_spec(b2, (7 - px) as u8) {
        2int
    } else {
        0int
    })) as u8
}

/// The first entry of screen line `line` (0 is the top) in the line buffer, which
/// holds the bottom line first.
pub open spec fn row_start(line: int) -> int {
    (143 - line) * 160
}

/// A byte of video RAM bank `bank`.
pub open spec fn vram_byte(vram: Seq<u8>, index: int, bank: int) -> u8 {
    vram[index - 0x8000 + 0x2000 * bank]
}

/// What a tile map entry shows at row `tile_y` (0..=7) and column `tile_x` (0..=7)
/// of its tile: the buffer entry (color number, plus 4 for a color-model tile with
/// priority that is not color 0). `map_addr` is the entry's address; `tile_set`
/// says the tiles are numbered unsigned from 0x8000 rather than signed around 0x9000.
#[verifier::opaque]
pub open spec fn map_entry_pixel(vram: Seq<u8>, is_cgb: bool, map_addr: int, tile_set: bool, tile_y: int, tile_x: int) -> u8 {
    let raw = vram_byte(vram, map_addr, 0);
    let tile = if tile_set {
        raw as int
    } else {
        sext(raw) + 128
    };
    let tile_start = if tile_set {
        0x8000int
    } else {
        0x8800int
    };
    let attrs = vram_byte(vram, map_addr, 1);
    let row2 = if is_cgb && attrs & 0x40 != 0 {
        (7 - tile_y) * 2
    } else {
        tile_y * 2
    };
    let bank = if is_cgb && attrs & 0x08 != 0 {
        1int
    } else {
        0int
    };
    let addr = tile_start + tile * 16 + row2;
    let px = if is_cgb && attrs & 0x20 != 0 {
        7 - tile_x
    } else {
        tile_x
    };
    let pixel = tile_pixel(vram_byte(vram, addr, bank), vram_byte(vram, addr + 1, bank), px);
    if is_cgb && attrs & 0x80 != 0 && pixel != 0 {
        (pixel + 4) as u8
    } else {
        pixel
    }
}

/// The background at screen pixel `x` of line `line`, scrolled by SCX and SCY.
#[verifier::opaque]
pub open spec fn bg_pixel(g: GpuView, line: int, x: int) -> u8 {
    let lcdc = g.load(0xFF40);
    let map_start = if lcdc & 0x08 != 0 {
        0x9C00int
    } else {
        0x9800int
    };
    let line_scrolled = (g.load(0xFF42) + line) % 256;
    let map_x = (g.load(0xFF43) + x) % 256;
    map_entry_pixel(g.vram, g.is_cgb, map_start + (line_scrolled / 8) * 32 + map_x / 8, lcdc & 0x10 != 0, line_scrolled % 8, map_x % 8)
}

/// The palette number (0..=7) of a color-model map entry (0 on the monochrome model).
pub open spec fn map_entry_palette(vram: Seq<u8>, is_cgb: bool, map_addr: int) -> u8 {
    if is_cgb {
        vram_byte(vram, map_addr, 1) & 7
    } else {
        0
    }
}

/// The palette of the background at screen pixel `x` of line `line`.
#[verifier::opaque]
pub open spec fn bg_palette(g: GpuView, line: int, x: int) -> u8 {
    let lcdc = g.load(0xFF40);
    let map_start = if lcdc & 0x08 != 0 {
        0x9C00int
    } else {
        0x9800int
    };
    let line_scrolled = (g.load(0xFF42) + line) % 256;
    let map_x = (g.load(0xFF43) + x) % 256;
    map_entry_palette(g.vram, g.is_cgb, map_start + (line_scrolled / 8) * 32 + map_x / 8)
}

/// The window at column `t` (0..256) of the window, on the window line.
#[verifier::opaque]
pub open spec fn window_pixel(g: GpuView, t: int) -> u8 {
    let lcdc = g.load(0xFF40);
    let map = if lcdc & 0x40 != 0 {
        0x9C00int
    } else {
        0x9800int
    };
    map_entry_pixel(g.vram, g.is_cgb, map + (g.window_line / 8) * 32 + t / 8, lcdc & 0x10 != 0, (g.window_line % 8) as int, t % 8)
}

/// The palette of the window at column `t` of the window, on the window line.
#[verifier::opaque]
pub open spec fn window_palette(g: GpuView, t: int) -> u8 {
    let lcdc = g.load(0xFF40);
    let map = if lcdc & 0x40 != 0 {
        0x9C00int
    } else {
        0x9800int
    };
    map_entry_palette(g.vram, g.is_cgb, map + (g.window_line / 8) * 32 + t / 8)
}

/// A white pixel at frame index `i`, as the model in use shows it.
pub open spec fn white_pixel(is_cgb: bool, i: int) -> MappedPixel {
    if is_cgb {
        MappedPixel::Rgb(i as usize, CGBColor { red: 0, green: 0, blue: 0 })
    } else {
        MappedPixel::Shade(i as usize, Color::White)
    }
}

/// A whole line `line` of white pixels.
pub open spec fn white_line(is_cgb: bool, line: int) -> Seq<MappedPixel> {
    Seq::new(160, |x: int| white_pixel(is_cgb, row_start(line) + x))
}

/// How a background or window buffer entry at frame index `i` is shown: its color
/// number through color-model palette `pal`, or through the background palette
/// register on the monochrome model.
pub open spec fn background_shown(g: GpuView, i: int, entry: u8, pal: u8) -> MappedPixel {
    entry_shown(g.is_cgb, g.bg_palettes, g.load(0xFF47), i, entry, pal)
}

/// `background_shown` over the state it reads: the model, the color-model
/// background palettes and the background palette register.
pub open spec fn entry_shown(is_cgb: bool, palettes: Seq<CGBColor>, bgp: u8, i: int, entry: u8, pal: u8) -> MappedPixel {
    if is_cgb {
        MappedPixel::Rgb(i as usize, rgb_color(palettes[pal * 4 + entry % 4]))
    } else {
        MappedPixel::Shade(i as usize, gb_color(bgp, entry % 4))
    }
}

/// The background at screen pixel `x` of line `line` as it is shown.
pub open spec fn bg_shown(g: GpuView, line: int, x: int) -> MappedPixel {
    background_shown(g, row_start(line) + x, bg_pixel(g, line, x), bg_palette(g, line, x))
}

/// The pixels shown for `count` background pixels of line `line` from `pixel` on,
/// or, when the background is off on the monochrome model, a white line.
pub open spec fn background_output(g: GpuView, line: int, pixel: int, count: int) -> Seq<MappedPixel> {
    if g.is_cgb || g.display_on() {
        Seq::new(count as nat, |k: int| bg_shown(g, line, pixel + k))
    } else {
        white_line(g.is_cgb, line)
    }
}

/// The line buffer with `count` background pixels of line `line` from `pixel` on
/// rendered, or, when the background is off on the monochrome model, the whole line
/// cleared.
pub open spec fn background_rendered(g: GpuView, line: int, pixel: int, count: int) -> GpuView {
    let row = row_start(line);
    if g.is_cgb || g.display_on() {
        GpuView {
            background: Seq::new(
                160 * 144,
                |i: int|
                    if row + pixel <= i < row + pixel + count {
                        bg_pixel(g, line, i - row)
                    } else {
                        g.background[i]
                    },
            ),
            ..g
        }
    } else {
        GpuView {
            background: Seq::new(160 * 144, |i: int| if row <= i < row + 160 { 0u8 } else { g.background[i] }),
            ..g
        }
    }
}

/// The window's horizontal position on screen (WX - 7).
pub open spec fn window_x(g: GpuView) -> int {
    g.load(0xFF4B) - 7
}

/// The window is drawn on line `line`: its line counter has not passed the bottom,
/// it is switched on (LCDC bit 5), and it starts on screen at or above the line.
pub open spec fn window_shown(g: GpuView, line: int) -> bool {
    &&& g.window_line <= 143
    &&& g.load(0xFF40) & 0x20 != 0
    &&& window_x(g) <= 159
    &&& g.load(0xFF4A) <= 143
    &&& g.load(0xFF4A) <= line
}

/// The line buffer with the window drawn over line `line`, and the window line
/// advanced.
pub open spec fn window_rendered(g: GpuView, line: int) -> GpuView {
    let row = row_start(line);
    let wx = window_x(g);
    if window_shown(g, line) {
        GpuView {
            background: Seq::new(
                160 * 144,
                |i: int|
                    if row <= i < row + 160 && i - row >= wx {
                        window_pixel(g, i - row - wx)
                    } else {
                        g.background[i]
                    },
            ),
            window_line: (g.window_line + 1) as i32,
            ..g
        }
    } else {
        g
    }
}

/// The first window column that lands on screen.
pub open spec fn window_first_column(g: GpuView) -> int {
    if window_x(g) < 0 {
        -window_x(g)
    } else {
        0
    }
}

/// The window at column `t` of the window, on screen line `line`, as it is shown.
pub open spec fn window_shown_pixel(g: GpuView, line: int, t: int) -> MappedPixel {
    background_shown(g, row_start(line) + window_x(g) + t, window_pixel(g, t), window_palette(g, t))
}

/// The window pixels shown on line `line` among the window columns before `t`, left
/// to right.
pub open spec fn window_output_upto(g: GpuView, line: int, t: int) -> Seq<MappedPixel> {
    let t0 = window_first_column(g);
    let end = 160 - window_x(g);
    let n = if t <= t0 {
        0
    } else if t >= end {
        end - t0
    } else {
        t - t0
    };
    Seq::new(n as nat, |k: int| window_shown_pixel(g, line, t0 + k))
}

/// The window pixels shown on line `line`, left to right (none when the window is
/// not drawn there).
pub open spec fn window_output(g: GpuView, line: int) -> Seq<MappedPixel> {
    if window_shown(g, line) {
        window_output_upto(g, line, 256)
    } else {
        Seq::empty()
    }
}

/// Byte `j` of the attributes of sprite `s`: Y, X, tile number, flags.
pub open spec fn sprite_byte(g: GpuView, s: int, j: int) -> u8 {
    g.oam[s * 4 + j]
}

/// Sprites are 8 x 16 (LCDC bit 2).
pub open spec fn tall_sprites(g: GpuView) -> bool {
    g.load(0xFF40) & 0x04 != 0
}

/// Sprite `s` crosses line `line` and is not entirely off the left or right edge.
pub open spec fn sprite_on_line(g: GpuView, s: int, line: int) -> bool {
    let y = sprite_byte(g, s, 0) - 16;
    let x = sprite_byte(g, s, 1) - 8;
    let height = if tall_sprites(g) {
        16int
    } else {
        8int
    };
    &&& y <= line < y + height
    &&& -7 <= x < 160
}

/// Pixel `px` (0..8) of the row of sprite `s` that crosses line `line`, if it is
/// drawn: color 0 is transparent, the pixel must fall on screen, a color-model
/// priority tile hides it, and a sprite behind the background shows only over
/// background color 0. It is shown through its color-model palette or through the
/// object palette that its flags select.
pub open spec fn sprite_pixel(g: GpuView, line: int, s: int, px: int) -> Option<MappedPixel> {
    let y = sprite_byte(g, s, 0) - 16;
    let x = sprite_byte(g, s, 1) - 8;
    let tile = sprite_byte(g, s, 2);
    let flags = sprite_byte(g, s, 3);
    let tall = tall_sprites(g);
    let tile_16 = if tall {
        (tile & 0xFE) * 16
    } else {
        tile * 16
    };
    let xflip = flags & 0x20 != 0;
    let yflip = flags & 0x40 != 0;
    let behind = flags & 0x80 != 0;
    let pixel_y = if yflip {
        (if tall {
            15int
        } else {
            7int
        }) - (line - y)
    } else {
        line - y
    };
    let row_offset = if tall && pixel_y >= 8 {
        (pixel_y - 8) * 2 + 16
    } else {
        pixel_y * 2
    };
    let addr = 0x8000 + tile_16 + row_offset;
    let bank = if g.is_cgb && flags & 0x08 != 0 {
        1int
    } else {
        0int
    };
    let pixel = tile_pixel(
        vram_byte(g.vram, addr, bank),
        vram_byte(g.vram, addr + 1, bank),
        if xflip {
            7 - px
        } else {
            px
        },
    );
    let position = row_start(line) + x + px;
    let under = g.background[position];
    if pixel != 0 && 0 <= x + px < 160 && !(g.is_cgb && bit_set_spec(under, 2)) && !(behind && under % 4 != 0) {
        if g.is_cgb {
            Some(MappedPixel::Rgb(position as usize, rgb_color(g.sprite_palettes[(flags & 0x07) * 4 + pixel])))
        } else {
            let palette = if flags & 0x10 != 0 {
                g.load(0xFF49)
            } else {
                g.load(0xFF48)
            };
            Some(MappedPixel::Shade(position as usize, gb_color(palette, pixel)))
        }
    } else {
        None
    }
}

/// The drawn pixels among the first `k` of the row of sprite `s` on line `line`.
pub open spec fn sprite_row_upto(g: GpuView, line: int, s: int, k: int) -> Seq<MappedPixel>
    decreases k,
{
    if k <= 0 {
        Seq::empty()
    } else {
        let before = sprite_row_upto(g, line, s, k - 1);
        match sprite_pixel(g, line, s, k - 1) {
            Some(p) => before.push(p),
            None => before,
        }
    }
}

/// The drawn pixels of sprite `s` on line `line`, left to right.
pub open spec fn sprite_output(g: GpuView, line: int, s: int) -> Seq<MappedPixel> {
    if sprite_on_line(g, s, line) {
        sprite_row_upto(g, line, s, 8)
    } else {
        Seq::empty()
    }
}

/// The pixels of sprites 39 down to `s` on line `line`, in that order.
pub open spec fn sprites_from(g: GpuView, line: int, s: int) -> Seq<MappedPixel>
    decreases 40 - s,
{
    if s >= 40 {
        Seq::empty()
    } else {
        sprites_from(g, line, s + 1) + sprite_output(g, line, s)
    }
}

/// The sprite pixels of line `line`, when sprites are switched on (LCDC bit 1).
pub open spec fn sprites_output(g: GpuView, line: int) -> Seq<MappedPixel> {
    if g.load(0xFF40) & 0x02 != 0 {
        sprites_from(g, line, 0)
    } else {
        Seq::empty()
    }
}

/// The pixels shown when line `line` is finished: with the screen on, the window
/// and then the sprites over it; otherwise a white line.
pub open spec fn scan_line_output(g: GpuView, line: int) -> Seq<MappedPixel> {
    if !g.screen_disabled && g.display_on() {
        window_output(g, line) + sprites_output(window_rendered(g, line), line)
    } else {
        white_line(g.is_cgb, line)
    }
}

proof fn lemma_bit_select(b: u8, k: u8)
    by (bit_vector)
    requires
        k < 8,
    ensures
        (b & (1u8 << k) != 0) == ((b >> k) & 1u8 == 1u8),
        (b >> k) & 1u8 <= 1,
{
}

/// How a sprite's tile row is laid out on screen (monochrome model, 8 x 8 sprites,
/// drawn in front through object palette 0, no vertical flip): pixel `px` of the
/// row lands at screen x = X - 8 + px and takes the color made of bit 7 - px of the
/// two row bytes (bit px when the X-flip flag, bit 5, is set), low byte first; color
/// 0 and pixels off screen are not drawn.
pub proof fn lemma_sprite_row_layout(g: GpuView, line: int, s: int, px: int)
    requires
        !g.is_cgb,
        !tall_sprites(g),
        0 <= s < 40,
        0 <= px < 8,
        sprite_on_line(g, s, line),
        sprite_byte(g, s, 3) & 0xD0 == 0,
    ensures
        ({
            let y = sprite_byte(g, s, 0) - 16;
            let x = sprite_byte(g, s, 1) - 8;
            let k: u8 = if sprite_byte(g, s, 3) & 0x20 != 0 {
                px as u8
            } else {
                (7 - px) as u8
            };
            let row = sprite_byte(g, s, 2) * 16 + (line - y) * 2;
            let lo = g.vram[row];
            let hi = g.vram[row + 1];
            let color = ((lo >> k) & 1u8) + 2 * ((hi >> k) & 1u8);
            sprite_pixel(g, line, s, px) == if color != 0 && 0 <= x + px < 160 {
                Some(MappedPixel::Shade((row_start(line) + x + px) as usize, gb_color(g.load(0xFF48), color as u8)))
            } else {
                None
            }
        }),
{
    let flags = sprite_byte(g, s, 3);
    assert((flags & 0xD0 == 0) ==> (flags & 0x40 == 0 && flags & 0x80 == 0 && flags & 0x10 == 0)) by (bit_vector);
    let k: u8 = if flags & 0x20 != 0 {
        px as u8
    } else {
        (7 - px) as u8
    };
    let y = sprite_byte(g, s, 0) - 16;
    let row = sprite_byte(g, s, 2) * 16 + (line - y) * 2;
    lemma_bit_select(g.vram[row], k);
    lemma_bit_select(g.vram[row + 1], k);
}

proof fn lemma_background_output_grows(out0: Seq<MappedPixel>, g: GpuView, line: int, pixel: int, n: nat)
    ensures
        (out0 + Seq::new(n, |k: int| bg_shown(g, line, pixel + k))).push(bg_shown(g, line, pixel + n)) == out0
            + Seq::new(n + 1, |k: int| bg_shown(g, line, pixel + k)),
{
    assert((out0 + Seq::new(n, |k: int| bg_shown(g, line, pixel + k))).push(bg_shown(g, line, pixel + n)) =~= out0
        + Seq::new(n + 1, |k: int| bg_shown(g, line, pixel + k)));
}

impl GPU {
    /// The buffer entry of a map entry's pixel, read as `map_entry_pixel` describes.
    fn map_entry_pixel(&self, map_addr: u16, tile_set: bool, tile_y: u8, tile_x: u8) -> (r: u8)
        requires
            self@.wf(),
            0x9800 <= map_addr <= 0x9FFF,
            tile_y < 8,
            tile_x < 8,
        ensures
            r == map_entry_pixel(self@.vram, self@.is_cgb, map_addr as int, tile_set, tile_y as int, tile_x as int),
            r <= 7,
            r % 4 <= 3,
    {
        proof {
            reveal(map_entry_pixel);
        }
        let raw = self.read_cgb_lcd_ram(map_addr, 0);
        let tile: i32 = if tile_set {
            raw as i32
        } else if raw >= 128 {
            raw as i32 - 128
        } else {
            raw as i32 + 128
        };
        let tile_start: i32 = if tile_set {
            0x8000
        } else {
            0x8800
        };
        let attrs: u8 = if self.is_cgb {
            self.read_cgb_lcd_ram(map_addr, 1)
        } else {
            0
        };
        let row2: i32 = if self.is_cgb && attrs & 0x40 != 0 {
            (7 - tile_y as i32) * 2
        } else {
            tile_y as i32 * 2
        };
        let bank: i32 = if self.is_cgb && attrs & 0x08 != 0 {
            1
        } else {
            0
        };
        let addr = (tile_start + tile * 16 + row2) as u16;
        let byte1 = self.read_cgb_lcd_ram(addr, bank);
        let byte2 = self.read_cgb_lcd_ram(addr + 1, bank);
        let px: u8 = if self.is_cgb && attrs & 0x20 != 0 {
            7 - tile_x
        } else {
            tile_x
        };
        let mut pixel: u8 = 0;
        if is_set(byte1, 7 - px) {
            pixel = pixel + 1;
        }
        if is_set(byte2, 7 - px) {
            pixel = pixel + 2;
        }
        if self.is_cgb && attrs & 0x80 != 0 && pixel != 0 {
            pixel + 4
        } else {
            pixel
        }
    }

    /// Appends how a buffer entry's color number `pixel` at frame index `index` is
    /// shown (see `background_shown`).
    fn map_background_pixel(&self, index: usize, pixel: u8, pal: u8, out: &mut Vec<MappedPixel>)
        requires
            self@.wf(),
            pixel <= 3,
            pal <= 7,
        ensures
            final(out)@ == old(out)@.push(entry_shown(self@.is_cgb, self@.bg_palettes, self@.load(0xFF47), index as int, pixel, pal)),
    {
        if self.is_cgb {
            let color = self.cgb_background_palettes[(pal as usize) * 4 + pixel as usize];
            out.push(MappedPixel::Rgb(index, GPU::cgb_color_to_rgb_color(color)));
        } else {
            let palette = self.load(BACKGROUND_PALETTE_INDEX);
            let color = GPU::gb_color_from_palette(palette, pixel);
            out.push(MappedPixel::Shade(index, color));
        }
    }

    /// The palette number of a color-model map entry (0 on the monochrome model).
    fn map_entry_palette(&self, map_addr: u16) -> (r: u8)
        requires
            self@.wf(),
            0x9800 <= map_addr <= 0x9FFF,
        ensures
            r <= 7,
            r == map_entry_palette(self@.vram, self@.is_cgb, map_addr as int),
    {
        if self.is_cgb {
            let attrs = self.read_cgb_lcd_ram(map_addr, 1);
            assert(attrs & 7 <= 7) by (bit_vector);
            attrs & 0b111
        } else {
            0
        }
    }

    #[verifier::rlimit(40)]
    #[verifier::spinoff_prover]
    /// Draws one pixel of a tile map entry into line buffer entry `index` and
    /// appends how it is shown.
    fn draw_map_pixel(
        &mut self,
        index: usize,
        map_addr: u16,
        tile_set: bool,
        tile_y: u8,
        tile_x: u8,
        out: &mut Vec<MappedPixel>,
    )
        requires
            old(self)@.wf(),
            index < 160 * 144,
            0x9800 <= map_addr <= 0x9FFF,
            tile_y < 8,
            tile_x < 8,
        ensures
            final(self)@ == (GpuView {
                background: old(self)@.background.update(
                    index as int,
                    map_entry_pixel(old(self)@.vram, old(self)@.is_cgb, map_addr as int, tile_set, tile_y as int, tile_x as int),
                ),
                ..old(self)@
            }),
            final(self)@.wf(),
            final(out)@ == old(out)@.push(
                entry_shown(
                    old(self)@.is_cgb,
                    old(self)@.bg_palettes,
                    old(self)@.load(0xFF47),
                    index as int,
                    map_entry_pixel(old(self)@.vram, old(self)@.is_cgb, map_addr as int, tile_set, tile_y as int, tile_x as int),
                    map_entry_palette(old(self)@.vram, old(self)@.is_cgb, map_addr as int),
                ),
            ),
    {
        let value = self.map_entry_pixel(map_addr, tile_set, tile_y, tile_x);
        let pal = self.map_entry_palette(map_addr);
        self.background.set(index, value);
        self.map_background_pixel(index, value % 4, pal, out);
    }

    /// Renders `count` background pixels of line `line` from screen pixel `pixel` on
    /// (within one tile) into the line buffer, and appends how they are shown.
    #[verifier::rlimit(60)]
    #[verifier::spinoff_prover]
    pub(crate) fn render_background(&mut self, line: i32, pixel: i32, count: i32, out: &mut Vec<MappedPixel>)
        requires
            old(self)@.wf(),
            0 <= line < 144,
            0 <= pixel,
            0 <= count,
            pixel % 8 + count <= 8,
            pixel + count <= 160,
        ensures
            final(self)@ == background_rendered(old(self)@, line as int, pixel as int, count as int),
            final(self)@.wf(),
            final(out)@ == old(out)@ + background_output(old(self)@, line as int, pixel as int, count as int),
    {
        let ghost g0 = self@;
        let ghost out0 = out@;
        let offset_x_start = pixel % 8;
        let offset_x_end = offset_x_start + count;
        let screen_tile = pixel / 8;
        let lcd_control = self.load(LCD_CONTROL_INDEX);
        let line_width = (GAMEBOY_HEIGHT - 1 - line) * GAMEBOY_WIDTH;
        if self.is_cgb || lcd_control & 0x80 != 0 {
            let tile_set = lcd_control & 0x10 != 0;
            let map_start_addr: i32 = if lcd_control & 0x08 != 0 {
                0x9C00
            } else {
                0x9800
            };
            let scroll_x = self.load(SCROLL_X_INDEX);
            let scroll_y = self.load(SCROLL_Y_INDEX);
            let line_scrolled = scroll_y.wrapping_add(line as u8);
            let line_scrolled_32 = (line_scrolled as i32 / 8) * 32;
            let tile_pixel_y = line_scrolled % 8;
            let mut offset_x = offset_x_start;
            while offset_x < offset_x_end
                invariant
                    offset_x_start <= offset_x <= offset_x_end,
                    offset_x_start == pixel % 8,
                    offset_x_end == offset_x_start + count,
                    screen_tile == pixel / 8,
                    pixel % 8 + count <= 8,
                    pixel + count <= 160,
                    0 <= pixel,
                    0 <= line < 144,
                    line_width == row_start(line as int),
                    g0.wf(),
                    self@.wf(),
                    g0.is_cgb || g0.display_on(),
                    lcd_control == g0.load(0xFF40),
                    tile_set == (lcd_control & 0x10 != 0),
                    map_start_addr == (if lcd_control & 0x08 != 0 { 0x9C00int } else { 0x9800int }),
                    scroll_x == g0.load(0xFF43),
                    line_scrolled == (g0.load(0xFF42) + line) % 256,
                    line_scrolled_32 == (line_scrolled / 8) * 32,
                    tile_pixel_y == line_scrolled % 8,
                    self@ == (GpuView { background: self@.background, ..g0 }),
                    self@.background == Seq::new(
                        160 * 144,
                        |i: int|
                            if line_width + pixel <= i < line_width + screen_tile * 8 + offset_x {
                                bg_pixel(g0, line as int, i - line_width)
                            } else {
                                g0.background[i]
                            },
                    ),
                    out@ == out0 + Seq::new((offset_x - offset_x_start) as nat, |k: int| bg_shown(g0, line as int, pixel + k)),
                decreases offset_x_end - offset_x,
            {
                let screen_pixel_x = (screen_tile * 8) + offset_x;
                let map_pixel_x = scroll_x.wrapping_add(screen_pixel_x as u8);
                let map_tile_x = (map_pixel_x / 8) as i32;
                let map_tile_offset_x = map_pixel_x % 8;
                let map_tile_addr = (map_start_addr + line_scrolled_32 + map_tile_x) as u16;
                let index = (line_width + screen_pixel_x) as usize;
                proof {
                    assert(map_entry_pixel(g0.vram, g0.is_cgb, map_tile_addr as int, tile_set, tile_pixel_y as int, map_tile_offset_x as int)
                        == bg_pixel(g0, line as int, screen_pixel_x as int)) by {
                        reveal(bg_pixel);
                    }
                    assert(map_entry_palette(g0.vram, g0.is_cgb, map_tile_addr as int) == bg_palette(g0, line as int, screen_pixel_x as int)) by {
                        reveal(bg_palette);
                    }
                    lemma_background_output_grows(out0, g0, line as int, pixel as int, (offset_x - offset_x_start) as nat);
                }
                self.draw_map_pixel(index, map_tile_addr, tile_set, tile_pixel_y, map_tile_offset_x, out);
                offset_x = offset_x + 1;
            }
            assert(self@.background =~= background_rendered(g0, line as int, pixel as int, count as int).background);
        } else {
            let mut x: i32 = 0;
            while x < GAMEBOY_WIDTH
                invariant
                    0 <= x <= 160,
                    0 <= line < 144,
                    line_width == row_start(line as int),
                    self@.wf(),
                    g0.wf(),
                    self@ == (GpuView { background: self@.background, ..g0 }),
                    self@.background == Seq::new(
                        160 * 144,
                        |i: int| if line_width <= i < line_width + x { 0u8 } else { g0.background[i] },
                    ),
                    out@ == out0 + white_line(g0.is_cgb, line as int).take(x as int),
                decreases 160 - x,
            {
                let index = (line_width + x) as usize;
                self.background.set(index, 0);
                if self.is_cgb {
                    let white = CGBColor { red: 0, green: 0, blue: 0 };
                    out.push(MappedPixel::Rgb(index, white));
                } else {
                    out.push(MappedPixel::Shade(index, Color::White));
                }
                proof {
                    assert(white_line(g0.is_cgb, line as int).take(x + 1) =~= white_line(g0.is_cgb, line as int).take(
                        x as int,
                    ).push(white_pixel(g0.is_cgb, line_width + x)));
                }
                x = x + 1;
                proof {
                    assert(self@.background =~= Seq::new(
                        160 * 144,
                        |i: int| if line_width <= i < line_width + x { 0u8 } else { g0.background[i] },
                    ));
                }
            }
            assert(self@.background =~= background_rendered(g0, line as int, pixel as int, count as int).background);
            assert(white_line(g0.is_cgb, line as int).take(160) =~= white_line(g0.is_cgb, line as int));
        }
    }

    /// Draws the window over line `line` when it is shown there, appends how its
    /// pixels are shown, and advances the window line then.
    pub(crate) fn render_window(&mut self, line: i32, out: &mut Vec<MappedPixel>)
        requires
            old(self)@.wf(),
            0 <= line < 144,
        ensures
            final(self)@ == window_rendered(old(self)@, line as int),
            final(self)@.wf(),
            final(out)@ == old(out)@ + window_output(old(self)@, line as int),
    {
        let ghost g0 = self@;
        let ghost out0 = out@;
        if self.window_line > 143 {
            return;
        }
        let lcd_control = self.load(LCD_CONTROL_INDEX);
        if lcd_control & 0x20 == 0 {
            return;
        }
        let wx = self.load(WINDOW_X_INDEX) as i32 - 7;
        if wx > 159 {
            return;
        }
        let wy = self.load(WINDOW_Y_INDEX) as i32;
        if (wy > 143) || (wy > line) {
            return;
        }
        let tile_set = lcd_control & 0x10 != 0;
        let map: i32 = if lcd_control & 0x40 != 0 {
            0x9C00
        } else {
            0x9800
        };
        let line_adjusted = self.window_line;
        let y_32 = (line_adjusted / 8) * 32;
        let pixely = (line_adjusted % 8) as u8;
        let line_width = (GAMEBOY_HEIGHT - 1 - line) * GAMEBOY_WIDTH;
        let mut t: i32 = 0;
        while t < 256
            invariant
                0 <= t <= 256,
                0 <= line < 144,
                line_width == row_start(line as int),
                g0.wf(),
                self@.wf(),
                window_shown(g0, line as int),
                wx == window_x(g0),
                -7 <= wx <= 159,
                tile_set == (g0.load(0xFF40) & 0x10 != 0),
                map == (if g0.load(0xFF40) & 0x40 != 0 { 0x9C00int } else { 0x9800int }),
                0 <= line_adjusted <= 143,
                line_adjusted == g0.window_line,
                y_32 == (line_adjusted / 8) * 32,
                pixely == line_adjusted % 8,
                self@ == (GpuView { background: self@.background, ..g0 }),
                self@.background == Seq::new(
                    160 * 144,
                    |i: int|
                        if line_width <= i < line_width + 160 && wx <= i - line_width < wx + t {
                            window_pixel(g0, i - line_width - wx)
                        } else {
                            g0.background[i]
                        },
                ),
                out@ == out0 + window_output_upto(g0, line as int, t as int),
            decreases 256 - t,
        {
            let buffer_x = t + wx;
            let ghost before = out@;
            if 0 <= buffer_x && buffer_x < GAMEBOY_WIDTH {
                let map_addr = (map + y_32 + t / 8) as u16;
                let position = (line_width + buffer_x) as usize;
                self.draw_map_pixel(position, map_addr, tile_set, pixely, (t % 8) as u8, out);
                proof {
                    reveal(window_pixel);
                    reveal(window_palette);
                    assert(map_entry_pixel(g0.vram, g0.is_cgb, map_addr as int, tile_set, pixely as int, (t % 8) as int)
                        == window_pixel(g0, t as int));
                    assert(map_entry_palette(g0.vram, g0.is_cgb, map_addr as int) == window_palette(g0, t as int));
                    assert(out@ == before.push(window_shown_pixel(g0, line as int, t as int)));
                    assert(window_output_upto(g0, line as int, t + 1) =~= window_output_upto(g0, line as int, t as int).push(
                        window_shown_pixel(g0, line as int, t as int),
                    ));
                }
            } else {
                assert(window_output_upto(g0, line as int, t + 1) =~= window_output_upto(g0, line as int, t as int));
            }
            t = t + 1;
            proof {
                assert(self@.background =~= Seq::new(
                    160 * 144,
                    |i: int|
                        if line_width <= i < line_width + 160 && wx <= i - line_width < wx + t {
                            window_pixel(g0, i - line_width - wx)
                        } else {
                            g0.background[i]
                        },
                ));
            }
        }
        self.window_line += 1;
        assert(self@ =~= window_rendered(g0, line as int));
    }

    /// Appends the sprite pixels of line `line` (see `sprites_output`): the last
    /// sprite of the table first, so that earlier sprites end on top.
    pub(crate) fn render_sprites(&self, line: i32, out: &mut Vec<MappedPixel>)
        requires
            self@.wf(),
            0 <= line < 144,
        ensures
            final(out)@ == old(out)@ + sprites_output(self@, line as int),
    {
        let ghost out0 = out@;
        let lcd_control = self.load(LCD_CONTROL_INDEX);
        if lcd_control & 0x02 == 0 {
            assert(out@ =~= out0 + sprites_output(self@, line as int));
            return;
        }
        let tall = lcd_control & 0x04 != 0;
        let sprite_height: i32 = if tall {
            16
        } else {
            8
        };
        let line_width = (GAMEBOY_HEIGHT - 1 - line) * GAMEBOY_WIDTH;
        let mut sprite: u16 = 40;
        while sprite > 0
            invariant
                sprite <= 40,
                0 <= line < 144,
                line_width == row_start(line as int),
                self@.wf(),
                tall == tall_sprites(self@),
                sprite_height == (if tall { 16int } else { 8int }),
                out@ == out0 + sprites_from(self@, line as int, sprite as int),
            decreases sprite,
        {
            sprite = sprite - 1;
            let ghost before = out@;
            let sprite_4 = sprite * 4;
            let sprite_y = self.read_byte(SPRITES_START_INDEX + sprite_4) as i32 - 16;
            let sprite_x = self.read_byte(SPRITES_START_INDEX + sprite_4 + 1) as i32 - 8;
            if !((sprite_y > line) || (sprite_y + sprite_height) <= line) && !((sprite_x < -7) || (sprite_x
                >= GAMEBOY_WIDTH)) {
                let tile_byte = self.read_byte(SPRITES_START_INDEX + sprite_4 + 2);
                let sprite_tile_16: i32 = if tall {
                    assert(tile_byte & 0xFE <= 254) by (bit_vector);
                    (tile_byte & 0xFE) as i32 * 16
                } else {
                    tile_byte as i32 * 16
                };
                let sprite_flags = self.read_byte(SPRITES_START_INDEX + sprite_4 + 3);
                self.render_sprite_line(
                    line,
                    line_width,
                    sprite_y,
                    sprite_x,
                    sprite_tile_16,
                    sprite_flags,
                    tall,
                    Ghost(sprite as int),
                    out,
                );
            }
            proof {
                assert(out@ == before + sprite_output(self@, line as int, sprite as int));
                assert(out@ =~= out0 + sprites_from(self@, line as int, sprite as int));
            }
        }
    }

    /// Appends the drawn pixels of the row of sprite `s` that crosses line `line`.
    fn render_sprite_line(
        &self,
        line: i32,
        line_width: i32,
        sprite_y: i32,
        sprite_x: i32,
        sprite_tile_16: i32,
        sprite_flags: u8,
        tall: bool,
        Ghost(s): Ghost<int>,
        out: &mut Vec<MappedPixel>,
    )
        requires
            self@.wf(),
            0 <= s < 40,
            0 <= line < 144,
            line_width == row_start(line as int),
            sprite_on_line(self@, s, line as int),
            tall == tall_sprites(self@),
            sprite_y == sprite_byte(self@, s, 0) - 16,
            sprite_x == sprite_byte(self@, s, 1) - 8,
            sprite_tile_16 == (if tall { (sprite_byte(self@, s, 2) & 0xFE) * 16 } else { sprite_byte(self@, s, 2) * 16 }),
            sprite_flags == sprite_byte(self@, s, 3),
        ensures
            final(out)@ == old(out)@ + sprite_row_upto(self@, line as int, s, 8),
    {
        let ghost out0 = out@;
        let sprite_palette = sprite_flags & 0x10 != 0;
        let xflip = sprite_flags & 0x20 != 0;
        let yflip = sprite_flags & 0x40 != 0;
        let behind_bg = sprite_flags & 0x80 != 0;
        let cgb_tile_bank = sprite_flags & 0x08 != 0;
        let cgb_tile_pal = sprite_flags & 0x07;
        assert(sprite_flags & 0x07 <= 7) by (bit_vector);
        proof {
            let tile_byte = sprite_byte(self@, s, 2);
            assert(tile_byte & 0xFE <= 254) by (bit_vector);
        }
        let tiles: i32 = 0x8000;
        let pixel_y = if yflip {
            let height: i32 = if tall {
                15
            } else {
                7
            };
            height - (line - sprite_y)
        } else {
            line - sprite_y
        };
        let (pixel_y_2, offset) = if tall && pixel_y >= 8 {
            ((pixel_y - 8) * 2, 16)
        } else {
            (pixel_y * 2, 0)
        };
        let tile_address = (tiles + sprite_tile_16 + pixel_y_2 + offset) as u16;
        let (byte1, byte2) = if self.is_cgb && cgb_tile_bank {
            (self.read_cgb_lcd_ram(tile_address, 1), self.read_cgb_lcd_ram(tile_address + 1, 1))
        } else {
            (self.read_cgb_lcd_ram(tile_address, 0), self.read_cgb_lcd_ram(tile_address + 1, 0))
        };
        let ghost bank: int = if self@.is_cgb && cgb_tile_bank {
            1
        } else {
            0
        };
        assert(byte1 == vram_byte(self@.vram, tile_address as int, bank));
        assert(byte2 == vram_byte(self@.vram, tile_address + 1, bank));
        let mut pixelx: u8 = 0;
        while pixelx < 8
            invariant
                pixelx <= 8,
                0 <= s < 40,
                0 <= line < 144,
                line_width == row_start(line as int),
                sprite_on_line(self@, s, line as int),
                tall == tall_sprites(self@),
                sprite_y == sprite_byte(self@, s, 0) - 16,
                sprite_x == sprite_byte(self@, s, 1) - 8,
                -7 <= sprite_x < 160,
                sprite_flags == sprite_byte(self@, s, 3),
                sprite_palette == (sprite_flags & 0x10 != 0),
                xflip == (sprite_flags & 0x20 != 0),
                behind_bg == (sprite_flags & 0x80 != 0),
                cgb_tile_pal == sprite_flags & 0x07,
                cgb_tile_pal <= 7,
                tile_address == 0x8000 + sprite_tile_16 + pixel_y_2 + offset,
                byte1 == vram_byte(self@.vram, tile_address as int, bank),
                byte2 == vram_byte(self@.vram, tile_address + 1, bank),
                bank == (if self@.is_cgb && sprite_flags & 0x08 != 0 { 1int } else { 0int }),
                pixel_y_2 + offset == (if tall && pixel_y >= 8 { (pixel_y - 8) * 2 + 16 } else { pixel_y * 2 }),
                pixel_y == (if sprite_flags & 0x40 != 0 { (if tall { 15int } else { 7int }) - (line - sprite_y) } else { line - sprite_y }),
                sprite_tile_16 == (if tall { (sprite_byte(self@, s, 2) & 0xFE) * 16 } else { sprite_byte(self@, s, 2) * 16 }),
                self@.wf(),
                out@ == out0 + sprite_row_upto(self@, line as int, s, pixelx as int),
            decreases 8 - pixelx,
        {
            let ghost before = out@;
            let bit: u8 = if xflip {
                pixelx
            } else {
                7 - pixelx
            };
            let mut pixel: u8 = 0;
            if is_set(byte1, bit) {
                pixel = pixel + 1;
            }
            if is_set(byte2, bit) {
                pixel = pixel + 2;
            }
            assert(pixel == tile_pixel(byte1, byte2, if xflip { 7 - pixelx } else { pixelx as int }));
            let buffer_x = sprite_x + pixelx as i32;
            if pixel != 0 && 0 <= buffer_x && buffer_x < GAMEBOY_WIDTH {
                let position = (line_width + buffer_x) as usize;
                let background_color = self.background[position];
                if !(self.is_cgb && is_set(background_color, 2)) && !(behind_bg && background_color % 4 != 0) {
                    if self.is_cgb {
                        let color = self.cgb_sprite_palettes[(cgb_tile_pal as usize) * 4 + pixel as usize];
                        out.push(MappedPixel::Rgb(position, GPU::cgb_color_to_rgb_color(color)));
                    } else {
                        let palette = if sprite_palette {
                            self.load(OBJECT_PALETTE_1_INDEX)
                        } else {
                            self.load(OBJECT_PALETTE_0_INDEX)
                        };
                        let color = GPU::gb_color_from_palette(palette, pixel);
                        out.push(MappedPixel::Shade(position, color));
                    }
                }
            }
            proof {
                assert(out@ =~= out0 + sprite_row_upto(self@, line as int, s, pixelx + 1));
            }
            pixelx = pixelx + 1;
        }
    }

    /// Finishes line `line`: with the screen on, the window and the sprites are
    /// drawn; otherwise the line goes white.
    pub(crate) fn scan_line(&mut self, line: i32, out: &mut Vec<MappedPixel>)
        requires
            old(self)@.wf(),
            0 <= line < 144,
        ensures
            final(self)@ == (if !old(self)@.screen_disabled && old(self)@.display_on() {
                window_rendered(old(self)@, line as int)
            } else {
                old(self)@
            }),
            final(self)@.wf(),
            final(out)@ == old(out)@ + scan_line_output(old(self)@, line as int),
    {
        let ghost out0 = out@;
        let lcd_control = self.load(LCD_CONTROL_INDEX);
        if !self.screen_disabled && lcd_control & 0x80 != 0 {
            self.render_window(line, out);
            self.render_sprites(line, out);
            assert(out@ =~= out0 + scan_line_output(old(self)@, line as int));
        } else {
            let line_width = (GAMEBOY_HEIGHT - 1 - line) * GAMEBOY_WIDTH;
            let mut x: i32 = 0;
            while x < GAMEBOY_WIDTH
                invariant
                    0 <= x <= 160,
                    0 <= line < 144,
                    line_width == row_start(line as int),
                    out@ == out0 + white_line(self@.is_cgb, line as int).take(x as int),
                decreases 160 - x,
            {
                let index = (line_width + x) as usize;
                if self.is_cgb {
                    let white = CGBColor { red: 0, green: 0, blue: 0 };
                    out.push(MappedPixel::Rgb(index, white));
                } else {
                    out.push(MappedPixel::Shade(index, Color::White));
                }
                proof {
                    assert(white_line(self@.is_cgb, line as int).take(x + 1) =~= white_line(self@.is_cgb, line as int).take(
                        x as int,
                    ).push(white_pixel(self@.is_cgb, line_width + x)));
                }
                x = x + 1;
            }
            assert(white_line(self@.is_cgb, line as int).take(160) =~= white_line(self@.is_cgb, line as int));
        }
    }
}

} // verus!
