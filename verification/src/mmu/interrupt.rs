use vstd::prelude::*;

verus! {

/// The five interrupt sources, in priority order; each is a bit of the
/// interrupt-flag and interrupt-enable registers.
#[derive(Clone, Copy, PartialEq, Eq, Structural, Debug)]
pub enum Interrupt {
    Vblank,
    Lcd,
    Timer,
    Serial,
    Joypad,
}

impl Interrupt {
    /// The bit of the interrupt registers that the source occupies.
    pub open spec fn bit(self) -> u8 {
        match self {
            Interrupt::Vblank => 0,
            Interrupt::Lcd => 1,
            Interrupt::Timer => 2,
            Interrupt::Serial => 3,
            Interrupt::Joypad => 4,
        }
    }

    /// The source with interrupt bit `i` (0..=4).
    pub open spec fn from_bit(i: int) -> Interrupt {
        if i == 0 {
            Interrupt::Vblank
        } else if i == 1 {
            Interrupt::Lcd
        } else if i == 2 {
            Interrupt::Timer
        } else if i == 3 {
            Interrupt::Serial
        } else {
            Interrupt::Joypad
        }
    }

    pub fn bit_index(&self) -> (r: u8)
        ensures
            r == self.bit(),
    {
        match self {
            Interrupt::Vblank => 0,
            Interrupt::Lcd => 1,
            Interrupt::Timer => 2,
            Interrupt::Serial => 3,
            Interrupt::Joypad => 4,
        }
    }
}

} // verus!
