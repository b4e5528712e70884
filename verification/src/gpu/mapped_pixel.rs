use vstd::prelude::*;
use crate::emulator::traits::PixelMapper;
use crate::gpu::cgb_color::CGBColor;
use crate::gpu::color::Color;

verus! {

/// A pixel the display hands to the screen: its index in the 160 x 144 frame (the
/// bottom line first) and its color, a shade on the monochrome model or an RGB
/// color on the color model.
#[derive(Clone, Copy, PartialEq, Eq, Structural, Debug)]
pub enum MappedPixel {
    Shade(usize, Color),
    Rgb(usize, CGBColor),
}

/// Hands `pixels` to `pixel_mapper`, in order: a shade through `map_pixel`, an RGB
/// color through `cgb_map_pixel`. `PixelMapper` is implemented by the library's
/// users and its methods carry no contract, so what the mapper receives is not
/// stated here; the pixels themselves are stated where they are computed.
pub(crate) fn show_pixels<T: PixelMapper>(pixels: &Vec<MappedPixel>, pixel_mapper: &mut T) {
    let mut i: usize = 0;
    while i < pixels.len()
        invariant
            i <= pixels.len(),
        decreases pixels.len() - i,
    {
        match pixels[i] {
            MappedPixel::Shade(index, color) => pixel_mapper.map_pixel(index, color),
            MappedPixel::Rgb(index, color) => pixel_mapper.cgb_map_pixel(index, color),
        }
        i = i + 1;
    }
}

} // verus!
