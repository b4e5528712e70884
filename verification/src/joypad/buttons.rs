use vstd::prelude::*;

verus! {

/// A set of buttons, one bit each: the directions in bits 0..3, A, B, Select and
/// Start in bits 4..7.
#[derive(Clone, Copy, PartialEq, Eq, Structural)]
pub struct Buttons {
    bits: u8,
}

impl View for Buttons {
    type V = u8;

    closed spec fn view(&self) -> u8 {
        self.bits
    }
}

impl Buttons {
    pub const RIGHT: u8 = 0b0000_0001;
    pub const LEFT: u8 = 0b0000_0010;
    pub const UP: u8 = 0b0000_0100;
    pub const DOWN: u8 = 0b0000_1000;
    pub const A: u8 = 0b0001_0000;
    pub const B: u8 = 0b0010_0000;
    pub const SELECT: u8 = 0b0100_0000;
    pub const START: u8 = 0b1000_0000;

    /// Every button.
    pub fn all() -> (r: Buttons)
        ensures
            r@ == 0xFF,
    {
        Buttons { bits: 0xFF }
    }

    pub fn bits(&self) -> (r: u8)
        ensures
            r == self@,
    {
        self.bits
    }

    /// Every button of `mask` is in the set.
    pub fn contains(&self, mask: u8) -> (r: bool)
        ensures
            r == (self@ & mask == mask),
    {
        self.bits & mask == mask
    }

    pub fn insert(&mut self, mask: u8)
        ensures
            final(self)@ == old(self)@ | mask,
    {
        self.bits = self.bits | mask;
    }

    pub fn remove(&mut self, mask: u8)
        ensures
            final(self)@ == old(self)@ & !mask,
    {
        self.bits = self.bits & !mask;
    }
}

} // verus!
