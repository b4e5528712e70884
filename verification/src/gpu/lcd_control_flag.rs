use vstd::prelude::*;

verus! {

/// The bits of the LCD control register (LCDC).
pub struct LcdControlFlag {}

impl LcdControlFlag {
    pub const BACKGROUND: u8 = 0b0000_0001;
    pub const SPRITES: u8 = 0b0000_0010;
    pub const SPRITES_SIZE: u8 = 0b0000_0100;
    pub const BACKGROUND_TILE_MAP: u8 = 0b0000_1000;
    pub const BACKGROUND_TILE_SET: u8 = 0b0001_0000;
    pub const WINDOW: u8 = 0b0010_0000;
    pub const WINDOW_TILE_MAP: u8 = 0b0100_0000;
    pub const DISPLAY: u8 = 0b1000_0000;
}

} // verus!
