use vstd::prelude::*;
use crate::gpu::cgb_color::CGBColor;
use crate::gpu::color::Color;

verus! {

/// Receives the pixels the display produces, one at a time.
pub trait PixelMapper {
    fn map_pixel(&mut self, pixel: usize, color: Color);

    fn cgb_map_pixel(&mut self, pixel: usize, color: CGBColor);
}

/// A wall clock for the cartridge's real-time clock.
pub trait RTC {
    /// The current unix timestamp in seconds.
    fn get_current_time(&self) -> u64;
}

} // verus!
