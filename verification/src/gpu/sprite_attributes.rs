use vstd::prelude::*;

verus! {

/// The bits of a sprite's attribute byte.
pub struct SpriteAttributes {}

impl SpriteAttributes {
    pub const VRAM_BANK: u8 = 0b0000_1000;
    pub const PALETTE: u8 = 0b0001_0000;
    pub const X_FLIP: u8 = 0b0010_0000;
    pub const Y_FLIP: u8 = 0b0100_0000;
    pub const BACKGROUND_PRIORITY: u8 = 0b1000_0000;
}

} // verus!
