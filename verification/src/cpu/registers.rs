use vstd::prelude::*;
use crate::cpu::flag::{Flag, flag_of};

verus! {

/// The eight 8-bit registers and the two 16-bit registers of the processor.
#[derive(Clone, Copy, PartialEq, Eq, Structural)]
pub struct Registers {
    pub a: u8,
    pub f: Flag,
    pub b: u8,
    pub c: u8,
    pub d: u8,
    pub e: u8,
    pub h: u8,
    pub l: u8,
    pub pc: u16,
    pub sp: u16,
}

/// The 16-bit value whose high byte is `hi` and whose low byte is `lo`.
pub open spec fn pair(hi: u8, lo: u8) -> u16 {
    (hi as int * 256 + lo as int) as u16
}

/// The high byte of a 16-bit value.
pub open spec fn high_byte(x: u16) -> u8 {
    (x as int / 256) as u8
}

/// The low byte of a 16-bit value.
pub open spec fn low_byte(x: u16) -> u8 {
    (x as int % 256) as u8
}

/// Shifting and masking give the arithmetic value of a register pair and of its bytes.
pub proof fn lemma_pair_bytes(hi: u8, lo: u8, x: u16)
    by (bit_vector)
    ensures
        ((hi as u16) << 8) | (lo as u16) == hi * 256 + lo,
        (hi as u16) << 8 == hi * 256,
        (x >> 8) as u8 == x / 256,
        x as u8 == x % 256,
        hi * 256 + lo <= 0xFFFF,
{
}

/// Splitting a pair gives back its bytes, and joining the bytes of a value gives it back.
pub proof fn lemma_pair_roundtrip(hi: u8, lo: u8, x: u16)
    ensures
        high_byte(pair(hi, lo)) == hi,
        low_byte(pair(hi, lo)) == lo,
        pair(high_byte(x), low_byte(x)) == x,
{
}

impl Default for Registers {
    /// The registers all cleared.
    fn default() -> (r: Registers)
        ensures
            r == Registers::cleared(),
    {
        Registers::new()
    }
}

impl Registers {
    pub open spec fn cleared() -> Registers {
        Registers {
            a: 0,
            f: Flag { zero: false, negative: false, half_carry: false, full_carry: false, low: 0 },
            b: 0,
            c: 0,
            d: 0,
            e: 0,
            h: 0,
            l: 0,
            pc: 0,
            sp: 0,
        }
    }

    /// The registers all cleared.
    pub fn new() -> (r: Registers)
        ensures
            r == Registers::cleared(),
            r.a == 0 && r.b == 0 && r.c == 0 && r.d == 0 && r.e == 0 && r.h == 0 && r.l == 0,
            r.pc == 0 && r.sp == 0,
            r.f@ == 0,
            !r.f.zero && !r.f.negative && !r.f.half_carry && !r.f.full_carry,
    {
        Registers { a: 0, f: Flag::empty(), b: 0, c: 0, d: 0, e: 0, h: 0, l: 0, pc: 0, sp: 0 }
    }

    pub open spec fn af(self) -> u16 {
        pair(self.a, self.f@)
    }

    pub open spec fn bc(self) -> u16 {
        pair(self.b, self.c)
    }

    pub open spec fn de(self) -> u16 {
        pair(self.d, self.e)
    }

    pub open spec fn hl(self) -> u16 {
        pair(self.h, self.l)
    }

    pub fn get_af(&self) -> (r: u16)
        ensures
            r == self.af(),
    {
        proof {
            lemma_pair_bytes(self.a, self.f@, 0);
        }
        ((self.a as u16) << 8) | (self.f.bits() as u16)
    }

    pub fn set_af(&mut self, af: u16)
        ensures
            *final(self) == (Registers { a: high_byte(af), f: flag_of(low_byte(af)), ..*old(self) }),
            final(self).f@ == low_byte(af) & 0xF7,
            final(self).af() == af & 0xFFF7,
    {
        proof {
            lemma_pair_bytes(0, 0, af);
        }
        self.a = (af >> 8) as u8;
        self.f = Flag::from_bits_truncate(af as u8);
        proof {
            lemma_af_mask(af);
        }
    }

    pub fn get_bc(&self) -> (r: u16)
        ensures
            r == self.bc(),
    {
        proof {
            lemma_pair_bytes(self.b, self.c, 0);
        }
        ((self.b as u16) << 8) | (self.c as u16)
    }

    pub fn set_bc(&mut self, bc: u16)
        ensures
            *final(self) == (Registers { b: high_byte(bc), c: low_byte(bc), ..*old(self) }),
            final(self).bc() == bc,
    {
        proof {
            lemma_pair_bytes(0, 0, bc);
        }
        self.c = bc as u8;
        self.b = (bc >> 8) as u8;
    }

    pub fn get_de(&self) -> (r: u16)
        ensures
            r == self.de(),
    {
        proof {
            lemma_pair_bytes(self.d, self.e, 0);
        }
        ((self.d as u16) << 8) | (self.e as u16)
    }

    pub fn set_de(&mut self, de: u16)
        ensures
            *final(self) == (Registers { d: high_byte(de), e: low_byte(de), ..*old(self) }),
            final(self).de() == de,
    {
        proof {
            lemma_pair_bytes(0, 0, de);
        }
        self.e = de as u8;
        self.d = (de >> 8) as u8;
    }

    pub fn get_hl(&self) -> (r: u16)
        ensures
            r == self.hl(),
    {
        proof {
            lemma_pair_bytes(self.h, self.l, 0);
        }
        ((self.h as u16) << 8) | (self.l as u16)
    }

    pub fn set_hl(&mut self, hl: u16)
        ensures
            *final(self) == (Registers { h: high_byte(hl), l: low_byte(hl), ..*old(self) }),
            final(self).hl() == hl,
    {
        proof {
            lemma_pair_bytes(0, 0, hl);
        }
        self.l = hl as u8;
        self.h = (hl >> 8) as u8;
    }
}

proof fn lemma_af_mask(af: u16)
    by (bit_vector)
    ensures
        ((af / 256) as u8) * 256 + ((af % 256) as u8 & 0xF7) == af & 0xFFF7,
{
}

} // verus!
