use vstd::prelude::*;
use crate::bit_utils::{bit_set_spec, with_bit_spec, without_bit_spec};
use crate::cpu::flag::Flag;

verus! {

/// An integer in -256..512 taken modulo 256.
pub open spec fn wrap8(x: int) -> u8 {
    if x < 0 {
        (x + 256) as u8
    } else if x >= 256 {
        (x - 256) as u8
    } else {
        x as u8
    }
}

/// An integer in -65536..131072 taken modulo 65536.
pub open spec fn wrap16(x: int) -> u16 {
    if x < 0 {
        (x + 0x10000) as u16
    } else if x >= 0x10000 {
        (x - 0x10000) as u16
    } else {
        x as u16
    }
}

/// A byte read as a two's-complement offset.
pub open spec fn sext(n: u8) -> int {
    if n >= 128 {
        n - 256
    } else {
        n as int
    }
}

pub open spec fn carry_in(f: Flag) -> int {
    if f.full_carry {
        1
    } else {
        0
    }
}

/// The eight accumulator operations, by the operation field of the opcode
/// (add, add with carry, subtract, subtract with carry, and, xor, or, compare):
/// the new accumulator and the new flags.
pub open spec fn alu(kind: int, a: u8, v: u8, f: Flag) -> (u8, Flag) {
    let c = carry_in(f);
    if kind == 0 {
        let r = wrap8(a + v);
        (r, Flag { zero: r == 0, negative: false, half_carry: a % 16 + v % 16 > 15, full_carry: a + v > 255, ..f })
    } else if kind == 1 {
        let r = wrap8(a + v + c);
        (
            r,
            Flag {
                zero: r == 0,
                negative: false,
                half_carry: a % 16 + v % 16 + c > 15,
                full_carry: a + v + c > 255,
                ..f
            },
        )
    } else if kind == 2 {
        (wrap8(a - v), Flag { zero: a == v, negative: true, half_carry: a % 16 < v % 16, full_carry: a < v, ..f })
    } else if kind == 3 {
        let r = wrap8(a - v - c);
        (
            r,
            Flag {
                zero: r == 0,
                negative: true,
                half_carry: a % 16 - v % 16 - c < 0,
                full_carry: a - v - c < 0,
                ..f
            },
        )
    } else if kind == 4 {
        let r = a & v;
        (r, Flag { zero: r == 0, negative: false, half_carry: true, full_carry: false, ..f })
    } else if kind == 5 {
        let r = a ^ v;
        (r, Flag { zero: r == 0, negative: false, half_carry: false, full_carry: false, ..f })
    } else if kind == 6 {
        let r = a | v;
        (r, Flag { zero: r == 0, negative: false, half_carry: false, full_carry: false, ..f })
    } else {
        (a, Flag { zero: a == v, negative: true, half_carry: a % 16 < v % 16, full_carry: a < v, ..f })
    }
}

/// The flags after an 8-bit increment of `v`; the carry is kept.
pub open spec fn inc_flags(v: u8, f: Flag) -> Flag {
    Flag { zero: wrap8(v + 1) == 0, negative: false, half_carry: v % 16 == 15, ..f }
}

/// The flags after an 8-bit decrement of `v`; the carry is kept.
pub open spec fn dec_flags(v: u8, f: Flag) -> Flag {
    Flag { zero: wrap8(v - 1) == 0, negative: true, half_carry: v % 16 == 0, ..f }
}

/// The eight rotates and shifts, by the operation field of a prefixed opcode
/// (rotate left/right circular, rotate left/right through carry, shift left
/// arithmetic, shift right arithmetic, swap nibbles, shift right logical):
/// the result and the bit moved into the carry.
pub open spec fn shift(kind: int, v: u8, f: Flag) -> (u8, bool) {
    let hi = v / 128;
    let lo = v % 2;
    let c = carry_in(f);
    if kind == 0 {
        (((v % 128) * 2 + hi) as u8, hi == 1)
    } else if kind == 1 {
        ((v / 2 + lo * 128) as u8, lo == 1)
    } else if kind == 2 {
        (((v % 128) * 2 + c) as u8, hi == 1)
    } else if kind == 3 {
        ((v / 2 + c * 128) as u8, lo == 1)
    } else if kind == 4 {
        (((v % 128) * 2) as u8, hi == 1)
    } else if kind == 5 {
        ((v / 2 + hi * 128) as u8, lo == 1)
    } else if kind == 6 {
        (((v % 16) * 16 + v / 16) as u8, false)
    } else {
        ((v / 2) as u8, lo == 1)
    }
}

/// The flags after a prefixed rotate or shift.
pub open spec fn shift_flags(kind: int, v: u8, f: Flag) -> Flag {
    let (r, c) = shift(kind, v, f);
    Flag { zero: r == 0, negative: false, half_carry: false, full_carry: c, ..f }
}

/// The flags after one of the four accumulator rotates of the unprefixed set,
/// which clear the zero flag.
pub open spec fn rotate_a_flags(kind: int, v: u8, f: Flag) -> Flag {
    let (r, c) = shift(kind, v, f);
    Flag { zero: false, negative: false, half_carry: false, full_carry: c, ..f }
}

/// The flags after testing bit `bit` of `v`.
pub open spec fn bit_flags(v: u8, bit: u8, f: Flag) -> Flag {
    Flag { zero: !bit_set_spec(v, bit), negative: false, half_carry: true, ..f }
}

/// Bit `bit` of `v` cleared (`set` false) or set (`set` true).
pub open spec fn bit_written(v: u8, bit: u8, set: bool) -> u8 {
    if set {
        with_bit_spec(v, bit)
    } else {
        without_bit_spec(v, bit)
    }
}

/// The value that decimal adjustment computes before it is reduced to a byte.
pub open spec fn daa_value(a: u8, f: Flag) -> int {
    if !f.negative {
        let r = if f.half_carry || a % 16 > 9 {
            a + 6
        } else {
            a as int
        };
        if f.full_carry || r > 0x9F {
            r + 0x60
        } else {
            r
        }
    } else {
        let r = if f.half_carry {
            wrap8(a - 6) as int
        } else {
            a as int
        };
        if f.full_carry {
            r - 0x60
        } else {
            r
        }
    }
}

/// The flags after decimal adjustment: the carry is set when the adjustment
/// leaves the byte range and is never cleared; the subtract flag is kept.
pub open spec fn daa_flags(a: u8, f: Flag) -> Flag {
    let r = daa_value(a, f);
    Flag {
        zero: wrap8(r) == 0,
        half_carry: false,
        full_carry: f.full_carry || r >= 0x100 || r < 0,
        ..f
    }
}

/// The flags after adding `v` to the register pair HL; the zero flag is kept.
pub open spec fn add_hl_flags(hl: u16, v: u16, f: Flag) -> Flag {
    Flag { negative: false, half_carry: hl % 0x1000 + v % 0x1000 > 0xFFF, full_carry: hl + v > 0xFFFF, ..f }
}

/// The stack pointer plus a signed byte offset.
pub open spec fn sp_offset(sp: u16, n: u8) -> u16 {
    wrap16(sp + sext(n))
}

/// The flags after adding a signed byte to the stack pointer: carries out of
/// bits 3 and 7 of the unsigned sum of the low bytes.
pub open spec fn sp_offset_flags(sp: u16, n: u8, f: Flag) -> Flag {
    Flag { zero: false, negative: false, half_carry: sp % 16 + n % 16 > 15, full_carry: sp % 256 + n > 255, ..f }
}

/// Compare sets the flags of a subtraction and leaves the accumulator alone.
pub proof fn lemma_cp_is_sub_flags(a: u8, v: u8, f: Flag)
    ensures
        alu(7, a, v, f).0 == a,
        alu(7, a, v, f).1 == alu(2, a, v, f).1,
{
}

/// Exclusive or of the accumulator with itself clears it and sets only the zero flag.
pub proof fn lemma_xor_self(a: u8, f: Flag)
    ensures
        alu(5, a, a, f).0 == 0,
        alu(5, a, a, f).1 == (Flag { zero: true, negative: false, half_carry: false, full_carry: false, ..f }),
{
    assert(a ^ a == 0) by (bit_vector);
}

/// Adding a value and then subtracting it gives the accumulator back.
pub proof fn lemma_add_then_sub(a: u8, v: u8, f: Flag, g: Flag)
    ensures
        alu(2, alu(0, a, v, f).0, v, g).0 == a,
{
}

/// An increment followed by a decrement gives the value back.
pub proof fn lemma_inc_then_dec(v: u8)
    ensures
        wrap8(wrap8(v + 1) - 1) == v,
{
}

/// Swapping the nibbles twice gives the byte back.
pub proof fn lemma_swap_twice(v: u8, f: Flag)
    ensures
        shift(6, shift(6, v, f).0, f).0 == v,
{
}


/// The number a packed binary-coded-decimal byte stands for (each nibble a digit).
pub open spec fn bcd_value(x: u8) -> int {
    (x / 16) * 10 + x % 16
}

/// The packed binary-coded-decimal byte of a number below 100.
pub open spec fn bcd_byte(n: int) -> u8 {
    ((n / 10) * 16 + n % 10) as u8
}

/// Both nibbles of `x` are decimal digits.
pub open spec fn is_bcd(x: u8) -> bool {
    x / 16 <= 9 && x % 16 <= 9
}

proof fn lemma_bcd_digits(x: u8)
    requires
        is_bcd(x),
    ensures
        x == (x / 16) * 16 + x % 16,
        0 <= x / 16 <= 9,
        0 <= x % 16 <= 9,
{
}

/// Decimal adjustment after adding two packed BCD bytes gives the BCD byte of their
/// decimal sum modulo 100, sets the carry exactly when the sum reaches 100, sets zero
/// exactly when the result is zero, and clears the half carry and the subtract flag.
pub proof fn lemma_daa_after_add(x: u8, y: u8, f: Flag)
    requires
        is_bcd(x),
        is_bcd(y),
    ensures
        ({
            let (r, f1) = alu(0, x, y, f);
            let s = bcd_value(x) + bcd_value(y);
            &&& wrap8(daa_value(r, f1)) == bcd_byte(s % 100)
            &&& daa_flags(r, f1).full_carry == (s >= 100)
            &&& daa_flags(r, f1).zero == (bcd_byte(s % 100) == 0)
            &&& !daa_flags(r, f1).half_carry
            &&& !daa_flags(r, f1).negative
        }),
{
    lemma_bcd_digits(x);
    lemma_bcd_digits(y);
    let h = x / 16 + y / 16;
    let l = x % 16 + y % 16;
    let (r, f1) = alu(0, x, y, f);
    let s = bcd_value(x) + bcd_value(y);
    assert(x + y == h * 16 + l);
    assert(s == h * 10 + l);
    assert(f1.half_carry == (l > 15));
    assert(f1.full_carry == (h * 16 + l > 255));
    assert(!f1.negative);
    let d = if l <= 9 { h } else { h + 1 };
    let e = if l <= 9 { l } else { l - 10 };
    assert(s == d * 10 + e && 0 <= e <= 9 && 0 <= d <= 19);
    let r1 = if f1.half_carry || r % 16 > 9 { r + 6 } else { r as int };
    if h * 16 + l > 255 {
        assert(r == h * 16 + l - 256);
    } else {
        assert(r == h * 16 + l);
    }
    assert(r1 == d * 16 + e || r1 == d * 16 + e - 256);
    if d <= 9 {
        assert(h * 16 + l <= 255);
        assert(r1 == d * 16 + e);
        assert(daa_value(r, f1) == d * 16 + e);
        assert(s % 100 == s);
        assert(s / 10 == d && s % 10 == e);
    } else {
        assert(daa_value(r, f1) == d * 16 + e + 0x60 || daa_value(r, f1) == d * 16 + e + 0x60 - 256);
        assert(s % 100 == (d - 10) * 10 + e);
        assert(((d - 10) * 10 + e) / 10 == d - 10 && ((d - 10) * 10 + e) % 10 == e);
        assert(wrap8(daa_value(r, f1)) == (d - 10) * 16 + e);
    }
}


proof fn lemma_shift_bit_facts(v: u8)
    by (bit_vector)
    ensures
        ((v % 128) * 2 + v / 128) as u8 == (v << 1u8) | (v >> 7u8),
        (v / 128 == 1) == (v & 0x80 != 0),
        (v / 2 + (v % 2) * 128) as u8 == (v >> 1u8) | (v << 7u8),
        (v % 2 == 1) == (v & 1 != 0),
        ((v % 128) * 2 + 1) as u8 == (v << 1u8) | 1u8,
        ((v % 128) * 2 + 0) as u8 == (v << 1u8) | 0u8,
        (v / 2 + 128) as u8 == (v >> 1u8) | 0x80u8,
        (v / 2 + 0) as u8 == (v >> 1u8) | 0u8,
        ((v % 128) * 2) as u8 == v << 1u8,
        (v / 2 + (v / 128) * 128) as u8 == (v >> 1u8) | (v & 0x80),
        ((v % 16) * 16 + v / 16) as u8 == (v << 4u8) | (v >> 4u8),
        (v / 2) as u8 == v >> 1u8,
{
}

proof fn lemma_alu_bit_facts(a: u8, v: u8)
    by (bit_vector)
    ensures
        a + v >= 256 ==> ((a + v - 256) as u8 == (a + v) as u8 && ((a + v) as u8) < a),
        a + v < 256 ==> ((a + v) as u8) >= a,
        ((a ^ v ^ ((a + v) as u8)) & 0x10 != 0) == (a % 16 + v % 16 > 15),
        a < v ==> ((a - v + 256) as u8 == (a - v) as u8),
        ((a ^ v ^ ((a - v) as u8)) & 0x10 != 0) == (a % 16 < v % 16),
        a + v + 1 >= 256 ==> (a + v + 1 - 256) as u8 == (a + v + 1) as u8,
        ((a ^ v ^ ((a + v + 1) as u8)) & 0x10 != 0) == (a % 16 + v % 16 + 1 > 15),
        a - v - 1 < 0 ==> (a - v - 1 + 256) as u8 == (a - v - 1) as u8,
        ((a ^ v ^ ((a - v - 1) as u8)) & 0x10 != 0) == (a % 16 - v % 16 - 1 < 0),
{
}

/// Each prefixed rotate and shift, as bit operations on the byte: RLC, RRC, RL, RR
/// rotate (through the carry for RL and RR) and give out the bit that leaves; SLA
/// shifts in a zero; SRA keeps bit 7 (the sign); SWAP exchanges the nibbles and
/// clears the carry; SRL shifts in a zero from the left.
pub proof fn lemma_shift_bits(v: u8, f: Flag)
    ensures
        shift(0, v, f) == ((v << 1u8) | (v >> 7u8), v & 0x80 != 0),
        shift(1, v, f) == ((v >> 1u8) | (v << 7u8), v & 1 != 0),
        shift(2, v, f) == ((v << 1u8) | (if f.full_carry { 1u8 } else { 0u8 }), v & 0x80 != 0),
        shift(3, v, f) == ((v >> 1u8) | (if f.full_carry { 0x80u8 } else { 0u8 }), v & 1 != 0),
        shift(4, v, f) == (v << 1u8, v & 0x80 != 0),
        shift(5, v, f) == ((v >> 1u8) | (v & 0x80), v & 1 != 0),
        shift(6, v, f) == ((v << 4u8) | (v >> 4u8), false),
        shift(7, v, f) == (v >> 1u8, v & 1 != 0),
{
    lemma_shift_bit_facts(v);
}


/// The accumulator operations as bit arithmetic on bytes, with the flags read from
/// the operands and the result: the half carry is the carry (or borrow) into bit 4,
/// seen as bit 4 of a ^ v ^ result; ADD carries when the result wraps below a; SUB
/// and CP borrow when v exceeds a; ADC and SBC take the carry flag in; AND sets the
/// half carry; AND, XOR and OR clear the carry; every operation sets zero exactly for
/// a zero result (CP for equal operands) and the subtract flag exactly for SUB, SBC
/// and CP.
pub proof fn lemma_alu_bits(a: u8, v: u8, f: Flag)
    ensures
        ({
            let cin: u8 = if f.full_carry { 1 } else { 0 };
            let add = alu(0, a, v, f);
            let adc = alu(1, a, v, f);
            let sub = alu(2, a, v, f);
            let sbc = alu(3, a, v, f);
            &&& add.0 == (a + v) as u8
            &&& add.1.half_carry == ((a ^ v ^ add.0) & 0x10 != 0)
            &&& add.1.full_carry == (add.0 < a)
            &&& add.1.zero == (add.0 == 0) && !add.1.negative
            &&& adc.0 == (a + v + cin) as u8
            &&& adc.1.half_carry == ((a ^ v ^ adc.0) & 0x10 != 0)
            &&& adc.1.full_carry == (a + v + cin >= 256)
            &&& adc.1.zero == (adc.0 == 0) && !adc.1.negative
            &&& sub.0 == (a - v) as u8
            &&& sub.1.half_carry == ((a ^ v ^ sub.0) & 0x10 != 0)
            &&& sub.1.full_carry == (v > a)
            &&& sub.1.zero == (sub.0 == 0) && sub.1.negative
            &&& sbc.0 == (a - v - cin) as u8
            &&& sbc.1.half_carry == ((a ^ v ^ sbc.0) & 0x10 != 0)
            &&& sbc.1.full_carry == (v + cin > a)
            &&& sbc.1.zero == (sbc.0 == 0) && sbc.1.negative
            &&& alu(4, a, v, f).0 == a & v && alu(4, a, v, f).1.half_carry && !alu(4, a, v, f).1.full_carry
            &&& alu(5, a, v, f).0 == a ^ v && !alu(5, a, v, f).1.half_carry && !alu(5, a, v, f).1.full_carry
            &&& alu(6, a, v, f).0 == a | v && !alu(6, a, v, f).1.half_carry && !alu(6, a, v, f).1.full_carry
            &&& alu(7, a, v, f).0 == a && alu(7, a, v, f).1 == sub.1
        }),
{
    lemma_alu_bit_facts(a, v);
    assert((a - v == 0) == (a == v));
    assert((a + v + 0) as u8 == (a + v) as u8 && (a - v - 0) as u8 == (a - v) as u8);
}


proof fn lemma_nibble_facts(v: u8)
    by (bit_vector)
    ensures
        (v % 16 == 15) == (v & 0x0F == 0x0F),
        (v % 16 == 0) == (v & 0x0F == 0),
{
}

/// INC and DEC of a byte: INC sets the half carry exactly when the low nibble was
/// 0xF and zero exactly when the byte was 0xFF; DEC sets the half carry exactly when
/// the low nibble was 0 and zero exactly when the byte was 1; INC clears and DEC sets
/// the subtract flag; both keep the carry.
pub proof fn lemma_inc_dec_flags(v: u8, f: Flag)
    ensures
        inc_flags(v, f).half_carry == (v & 0x0F == 0x0F),
        inc_flags(v, f).zero == (v == 0xFF),
        !inc_flags(v, f).negative && inc_flags(v, f).full_carry == f.full_carry,
        dec_flags(v, f).half_carry == (v & 0x0F == 0),
        dec_flags(v, f).zero == (v == 1),
        dec_flags(v, f).negative && dec_flags(v, f).full_carry == f.full_carry,
{
    lemma_nibble_facts(v);
}

} // verus!
