use vstd::prelude::*;

verus! {

/// Bit `bit` of `byte` is one.
pub open spec fn bit_set_spec(byte: u8, bit: u8) -> bool {
    byte & (1u8 << bit) != 0
}

/// `byte` with bit `bit` forced to one.
pub open spec fn with_bit_spec(byte: u8, bit: u8) -> u8 {
    byte | (1u8 << bit)
}

/// `byte` with bit `bit` forced to zero.
pub open spec fn without_bit_spec(byte: u8, bit: u8) -> u8 {
    byte & !(1u8 << bit)
}

pub fn is_set(byte: u8, bit: u8) -> (r: bool)
    requires
        bit < 8,
    ensures
        r == bit_set_spec(byte, bit),
{
    byte & (1u8 << bit) != 0
}

pub fn set_bit(byte: u8, bit: u8) -> (r: u8)
    requires
        bit < 8,
    ensures
        r == with_bit_spec(byte, bit),
{
    byte | (1u8 << bit)
}

pub fn unset_bit(byte: u8, bit: u8) -> (r: u8)
    requires
        bit < 8,
    ensures
        r == without_bit_spec(byte, bit),
{
    byte & !(1u8 << bit)
}

/// Setting a bit makes it read as set, clearing it makes it read as clear,
/// and neither touches any other bit.
pub proof fn lemma_set_unset_bit(byte: u8, bit: u8, other: u8)
    by (bit_vector)
    requires
        bit < 8,
        other < 8,
    ensures
        bit_set_spec(with_bit_spec(byte, bit), bit),
        !bit_set_spec(without_bit_spec(byte, bit), bit),
        other != bit ==> (bit_set_spec(with_bit_spec(byte, bit), other) == bit_set_spec(byte, other)),
        other != bit ==> (bit_set_spec(without_bit_spec(byte, bit), other) == bit_set_spec(byte, other)),
        !bit_set_spec(byte, bit) ==> without_bit_spec(with_bit_spec(byte, bit), bit) == byte,
        bit_set_spec(byte, bit) ==> with_bit_spec(without_bit_spec(byte, bit), bit) == byte,
        bit_set_spec(byte, bit) ==> with_bit_spec(byte, bit) == byte,
        !bit_set_spec(byte, bit) ==> without_bit_spec(byte, bit) == byte,
{
}

/// A mask never lets through more than it holds, nor more than the masked value.
pub proof fn lemma_and_bounds_u8(x: u8, m: u8)
    by (bit_vector)
    ensures
        x & m <= m,
        x & m <= x,
{
}

/// The same for 16-bit values.
pub proof fn lemma_and_bounds_u16(x: u16, m: u16)
    by (bit_vector)
    ensures
        x & m <= m,
        x & m <= x,
{
}

/// A mask applied to a non-negative value keeps it non-negative and no larger,
/// and a non-negative mask bounds the result.
pub proof fn lemma_and_bounds_i32(x: i32, m: i32)
    by (bit_vector)
    requires
        x >= 0,
    ensures
        0 <= x & m <= x,
        m >= 0 ==> x & m <= m,
{
}

/// Truncating to a byte never makes a value larger.
pub proof fn lemma_truncate_u8(x: usize)
    by (bit_vector)
    ensures
        (x as u8) as usize <= x,
{
}

} // verus!
