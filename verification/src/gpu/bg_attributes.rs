use vstd::prelude::*;

verus! {

/// The bits of a background map attribute byte (second video RAM bank) on the
/// color model.
pub struct BgAttributes {}

impl BgAttributes {
    pub const PALETTE_NUMBER_BIT_0: u8 = 0b0000_0001;
    pub const PALETTE_NUMBER_BIT_1: u8 = 0b0000_0010;
    pub const PALETTE_NUMBER_BIT_2: u8 = 0b0000_0100;
    pub const VRAM_BANK: u8 = 0b0000_1000;
    pub const XFLIP: u8 = 0b0010_0000;
    pub const YFLIP: u8 = 0b0100_0000;
    pub const BG_PRIORITY: u8 = 0b1000_0000;
}

} // verus!
