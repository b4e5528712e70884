use vstd::prelude::*;

verus! {

/// The flag register `F`: zero, subtract, half-carry and carry in bits 7..4,
/// bit 3 always reads as zero, and bits 2..0 are kept as they were loaded.
#[derive(Clone, Copy, PartialEq, Eq, Structural)]
pub struct Flag {
    pub zero: bool,
    pub negative: bool,
    pub half_carry: bool,
    pub full_carry: bool,
    pub low: u8,
}

/// The byte a flag register reads as.
pub open spec fn flag_byte(zero: bool, negative: bool, half_carry: bool, full_carry: bool, low: u8) -> u8 {
    (if zero { 0x80u8 } else { 0u8 }) | (if negative { 0x40u8 } else { 0u8 }) | (if half_carry {
        0x20u8
    } else {
        0u8
    }) | (if full_carry { 0x10u8 } else { 0u8 }) | (low & 0x07u8)
}

/// The register as it holds a loaded byte: bits 7..4 name the flags, bits 2..0 are kept.
pub open spec fn flag_of(bits: u8) -> Flag {
    Flag {
        zero: bits & 0x80 != 0,
        negative: bits & 0x40 != 0,
        half_carry: bits & 0x20 != 0,
        full_carry: bits & 0x10 != 0,
        low: bits & 0x07,
    }
}

impl View for Flag {
    type V = u8;

    open spec fn view(&self) -> u8 {
        flag_byte(self.zero, self.negative, self.half_carry, self.full_carry, self.low)
    }
}

/// The four named flags are bits 7..4 of the byte, bit 3 is always clear,
/// and the byte is determined by the named flags and the low three bits.
pub proof fn lemma_flag_byte(zero: bool, negative: bool, half_carry: bool, full_carry: bool, low: u8)
    by (bit_vector)
    ensures
        (flag_byte(zero, negative, half_carry, full_carry, low) & 0x80 != 0) == zero,
        (flag_byte(zero, negative, half_carry, full_carry, low) & 0x40 != 0) == negative,
        (flag_byte(zero, negative, half_carry, full_carry, low) & 0x20 != 0) == half_carry,
        (flag_byte(zero, negative, half_carry, full_carry, low) & 0x10 != 0) == full_carry,
        flag_byte(zero, negative, half_carry, full_carry, low) & 0x08 == 0,
        flag_byte(zero, negative, half_carry, full_carry, low) & 0x07 == low & 0x07,
        flag_byte(zero, negative, half_carry, full_carry, low) & 0xF7 == flag_byte(zero, negative, half_carry, full_carry, low),
        flag_byte(false, false, false, false, 0) == 0,
        forall|b: u8|
            #![auto]
            (b & 0xF7) == flag_byte(b & 0x80 != 0, b & 0x40 != 0, b & 0x20 != 0, b & 0x10 != 0, b),
{
}

impl Flag {
    pub const ZERO: u8 = 0x80;
    pub const NEGATIVE: u8 = 0x40;
    pub const HALF_CARRY: u8 = 0x20;
    pub const FULL_CARRY: u8 = 0x10;
    pub const UNUSED_4: u8 = 0x10;
    pub const UNUSED_3: u8 = 0x04;
    pub const UNUSED_2: u8 = 0x02;
    pub const UNUSED_1: u8 = 0x01;

    /// The flag register with every bit clear.
    pub fn empty() -> (r: Flag)
        ensures
            r@ == 0,
            r == (Flag { zero: false, negative: false, half_carry: false, full_carry: false, low: 0 }),
    {
        let r = Flag { zero: false, negative: false, half_carry: false, full_carry: false, low: 0 };
        proof {
            lemma_flag_byte(false, false, false, false, 0);
        }
        r
    }

    /// The byte the register reads as.
    pub fn bits(&self) -> (r: u8)
        ensures
            r == self@,
    {
        (if self.zero { 0x80u8 } else { 0u8 }) | (if self.negative { 0x40u8 } else { 0u8 }) | (
        if self.half_carry {
            0x20u8
        } else {
            0u8
        }) | (if self.full_carry { 0x10u8 } else { 0u8 }) | (self.low & 0x07u8)
    }

    /// Loads a byte, dropping bit 3, which the register does not hold.
    pub fn from_bits_truncate(bits: u8) -> (r: Flag)
        ensures
            r@ == bits & 0xF7,
            r == flag_of(bits),
            r.zero == (bits & 0x80 != 0),
            r.negative == (bits & 0x40 != 0),
            r.half_carry == (bits & 0x20 != 0),
            r.full_carry == (bits & 0x10 != 0),
            r.low == bits & 0x07,
    {
        let r = Flag {
            zero: bits & 0x80 != 0,
            negative: bits & 0x40 != 0,
            half_carry: bits & 0x20 != 0,
            full_carry: bits & 0x10 != 0,
            low: bits & 0x07,
        };
        proof {
            lemma_flag_byte(r.zero, r.negative, r.half_carry, r.full_carry, bits);
            lemma_flag_byte(r.zero, r.negative, r.half_carry, r.full_carry, r.low);
            lemma_low_bits(bits);
        }
        r
    }

    /// Every bit of `mask` is set in the register.
    pub fn contains(&self, mask: u8) -> (r: bool)
        ensures
            r == (self@ & mask == mask),
    {
        self.bits() & mask == mask
    }

    /// Sets the bits of `mask` that the register holds.
    pub fn insert(&mut self, mask: u8)
        ensures
            final(self)@ == (old(self)@ | mask) & 0xF7,
    {
        let b = (self.bits() | mask) & 0xF7;
        *self = Flag::from_bits_truncate(b);
        proof {
            lemma_and_f7_idempotent(old(self)@ | mask);
        }
    }

    /// Clears the bits of `mask`.
    pub fn remove(&mut self, mask: u8)
        ensures
            final(self)@ == old(self)@ & !mask,
    {
        let b = self.bits() & !mask;
        *self = Flag::from_bits_truncate(b);
        proof {
            lemma_flag_byte(old(self).zero, old(self).negative, old(self).half_carry, old(self).full_carry, old(self).low);
            lemma_and_not_keeps_f7(old(self)@, mask);
        }
    }

    /// Sets the bits of `mask` when `value` holds, and clears them when it does not.
    pub fn set(&mut self, mask: u8, value: bool)
        ensures
            value ==> final(self)@ == (old(self)@ | mask) & 0xF7,
            !value ==> final(self)@ == old(self)@ & !mask,
    {
        if value {
            self.insert(mask);
        } else {
            self.remove(mask);
        }
    }

    /// Flips the bits of `mask` that the register holds.
    pub fn toggle(&mut self, mask: u8)
        ensures
            final(self)@ == (old(self)@ ^ mask) & 0xF7,
    {
        let b = (self.bits() ^ mask) & 0xF7;
        *self = Flag::from_bits_truncate(b);
        proof {
            lemma_and_f7_idempotent(old(self)@ ^ mask);
        }
    }
}

proof fn lemma_low_bits(b: u8)
    by (bit_vector)
    ensures
        (b & 0x07) & 0x07 == b & 0x07,
{
}

proof fn lemma_and_f7_idempotent(b: u8)
    by (bit_vector)
    ensures
        (b & 0xF7) & 0xF7 == b & 0xF7,
{
}

proof fn lemma_and_not_keeps_f7(f: u8, mask: u8)
    by (bit_vector)
    requires
        f & 0xF7 == f,
    ensures
        (f & !mask) & 0xF7 == f & !mask,
{
}

} // verus!
