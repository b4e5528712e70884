use vstd::prelude::*;

verus! {

/// A color of the color model: one component per channel.
#[derive(Clone, Copy, PartialEq, Eq, Structural, Debug)]
pub struct CGBColor {
    pub red: u8,
    pub green: u8,
    pub blue: u8,
}

} // verus!
