use vstd::prelude::*;

use crate::types::Size;

verus! {

pub open spec fn spec_sign_extend_8_to_16(byte: u8) -> u16 {
    if byte & 0x80 == 0 {
        byte as u16
    } else {
        (0xFF00 + (byte as u16)) as u16
    }
}

pub fn sign_extend_8_to_16(byte: u8) -> (r: u16)
    ensures
        r == spec_sign_extend_8_to_16(byte),
{
    if byte & 0b1000_0000 == 0 {
        byte as u16
    } else {
        0xFF00 + (byte as u16)
    }
}

pub open spec fn spec_sign_extend_8_to_32(byte: u8) -> u32 {
    if byte & 0x80 == 0 {
        byte as u32
    } else {
        (0xFFFFFF00 + (byte as u32)) as u32
    }
}

pub fn sign_extend_8_to_32(byte: u8) -> (r: u32)
    ensures
        r == spec_sign_extend_8_to_32(byte),
{
    if byte & 0b1000_0000 == 0 {
        byte as u32
    } else {
        0xFFFFFF00 + (byte as u32)
    }
}

pub open spec fn spec_sign_extend_16_to_32(word: u16) -> u32 {
    if word & 0x8000 == 0 {
        word as u32
    } else {
        (0xFFFF0000 + (word as u32)) as u32
    }
}

pub fn sign_extend_16_to_32(word: u16) -> (r: u32)
    ensures
        r == spec_sign_extend_16_to_32(word),
{
    if word & 0b1000_0000_0000_0000 == 0 {
        word as u32
    } else {
        0xFFFF0000 + (word as u32)
    }
}

/// Reinterpret the 16 bits as a signed number (two's complement).
pub fn sign_transmute(word: u16) -> (r: i16)
    ensures
        r == word as i16,
{
    word as i16
}

pub open spec fn spec_is_bit_set(val: u32, pos: u8) -> bool {
    val & (1u32 << pos as u32) == (1u32 << pos as u32)
}

pub fn is_bit_set(val: u32, pos: u8) -> (r: bool)
    requires
        pos < 32,
    ensures
        r == spec_is_bit_set(val, pos),
{
    val & (1u32 << (pos as u32)) == (1u32 << (pos as u32))
}

/// The sign bit of `val` at width `size`.
pub open spec fn spec_is_negative(val: u32, size: Size) -> bool {
    match size {
        Size::Byte => val & 0x80 == 0x80,
        Size::Word => val & 0x8000 == 0x8000,
        Size::Long => val & 0x80000000 == 0x80000000,
    }
}

pub fn is_negative(val: u32, size: Size) -> (r: bool)
    ensures
        r == spec_is_negative(val, size),
{
    match size {
        Size::Byte => val & 0x80 == 0x80,
        Size::Word => val & 0x8000 == 0x8000,
        Size::Long => val & 0x80000000 == 0x80000000,
    }
}

/// Whether `val` is zero at width `size`; bits above the width do not count.
pub open spec fn spec_is_zero(val: u32, size: Size) -> bool {
    match size {
        Size::Byte => val & 0xFF == 0,
        Size::Word => val & 0xFFFF == 0,
        Size::Long => val == 0,
    }
}

pub fn is_zero(val: u32, size: Size) -> (r: bool)
    ensures
        r == spec_is_zero(val, size),
{
    match size {
        Size::Byte => val & 0xFF == 0,
        Size::Word => val & 0xFFFF == 0,
        Size::Long => val == 0,
    }
}

/// Carry out of an addition `val1 + val2 == res` at width `size`:
/// `(sa & sb) | (!sr & sa) | (!sr & sb)` over the three sign bits.
pub open spec fn spec_is_carry(val1: u32, val2: u32, res: u32, size: Size) -> bool {
    let sa = spec_is_negative(val1, size);
    let sb = spec_is_negative(val2, size);
    let sr = spec_is_negative(res, size);
    (sa && sb) || (!sr && sa) || (!sr && sb)
}

pub fn is_carry(val1: u32, val2: u32, res: u32, size: Size) -> (r: bool)
    ensures
        r == spec_is_carry(val1, val2, res, size),
{
    let sa = is_negative(val1, size);
    let sb = is_negative(val2, size);
    let sr = is_negative(res, size);
    (sa && sb) || (!sr && sa) || (!sr && sb)
}

/// Signed overflow of an addition `val1 + val2 == res` at width `size`:
/// `(sa & sb & !sr) | (!sa & !sb & sr)` over the three sign bits.
pub open spec fn spec_is_overflow(val1: u32, val2: u32, res: u32, size: Size) -> bool {
    let sa = spec_is_negative(val1, size);
    let sb = spec_is_negative(val2, size);
    let sr = spec_is_negative(res, size);
    (sa && sb && !sr) || (!sa && !sb && sr)
}

pub fn is_overflow(val1: u32, val2: u32, res: u32, size: Size) -> (r: bool)
    ensures
        r == spec_is_overflow(val1, val2, res, size),
{
    let sa = is_negative(val1, size);
    let sb = is_negative(val2, size);
    let sr = is_negative(res, size);
    (sa && sb && !sr) || (!sa && !sb && sr)
}

/// The bit field of `inst` that starts at bit `idx` and is `len` bits wide.
pub open spec fn spec_get_bits(inst: u16, idx: u8, len: u8) -> u16 {
    (((((1u16 << (len as u16)) - 1) as u16) << (idx as u16)) & inst) >> (idx as u16)
}

pub fn get_bits(inst: u16, idx: u8, len: u8) -> (r: u16)
    requires
        0 < len < 16,
        idx + len <= 16,
    ensures
        r == spec_get_bits(inst, idx, len),
        len == 1 ==> r < 2,
        len == 2 ==> r < 4,
        len == 3 ==> r < 8,
        len == 4 ==> r < 16,
        len == 5 ==> r < 32,
        len == 6 ==> r < 64,
        len == 8 ==> r < 256,
{
    proof {
        lemma_one_shl_bound(len as u16);
    }
    let mask = (1u16 << (len as u16)) - 1;
    let mask = mask << (idx as u16);
    let r = (mask & inst) >> (idx as u16);
    proof {
        lemma_get_bits_bound(inst, idx, len);
    }
    r
}

/// One shifted left by fewer than sixteen places stays a positive word.
pub proof fn lemma_one_shl_bound(l: u16)
    requires
        l < 16,
    ensures
        1 <= (1u16 << l) <= 0x8000,
{
    assert(l < 16 ==> 1 <= (1u16 << l) <= 0x8000) by (bit_vector);
}

/// The extracted field is bounded by its width.
pub proof fn lemma_get_bits_bound(inst: u16, idx: u8, len: u8)
    requires
        0 < len < 16,
        idx + len <= 16,
    ensures
        len == 1 ==> spec_get_bits(inst, idx, len) < 2,
        len == 2 ==> spec_get_bits(inst, idx, len) < 4,
        len == 3 ==> spec_get_bits(inst, idx, len) < 8,
        len == 4 ==> spec_get_bits(inst, idx, len) < 16,
        len == 5 ==> spec_get_bits(inst, idx, len) < 32,
        len == 6 ==> spec_get_bits(inst, idx, len) < 64,
        len == 8 ==> spec_get_bits(inst, idx, len) < 256,
{
    let i = idx as u16;
    let l = len as u16;
    assert({
        let f = (((((1u16 << l) - 1) as u16) << i) & inst) >> i;
        (l == 1 ==> f < 2) && (l == 2 ==> f < 4) && (l == 3 ==> f < 8) && (l == 4 ==> f < 16) && (l
            == 5 ==> f < 32) && (l == 6 ==> f < 64) && (l == 8 ==> f < 256)
    }) by (bit_vector)
        requires
            0 < l < 16,
            i + l <= 16,
    ;
}

/// A 3-bit register number taken from `inst` at bit `idx`.
pub fn get_reg(inst: u16, idx: u8) -> (r: u8)
    requires
        idx <= 13,
    ensures
        r == spec_get_bits(inst, idx, 3),
        r < 8,
{
    get_bits(inst, idx, 3) as u8
}

/// The two encodings of the 2-bit size field.  Most instructions use the
/// "pink" coding `00/01/10`; the size field of MOVE uses the "purple" coding
/// `01/11/10`.
pub enum SizeCoding {
    Pink,
    Purple,
}

pub open spec fn spec_size_field_valid(bits: u16, coding: SizeCoding) -> bool {
    match coding {
        SizeCoding::Pink => bits == 0 || bits == 1 || bits == 2,
        SizeCoding::Purple => bits == 1 || bits == 3 || bits == 2,
    }
}

pub open spec fn spec_decode_size(bits: u16, coding: SizeCoding) -> Size {
    match coding {
        SizeCoding::Pink => if bits == 0 {
            Size::Byte
        } else if bits == 1 {
            Size::Word
        } else {
            Size::Long
        },
        SizeCoding::Purple => if bits == 1 {
            Size::Byte
        } else if bits == 3 {
            Size::Word
        } else {
            Size::Long
        },
    }
}

pub fn get_size(inst: u16, idx: u8, coding: SizeCoding) -> (r: Size)
    requires
        idx <= 14,
        spec_size_field_valid(spec_get_bits(inst, idx, 2), coding),
    ensures
        r == spec_decode_size(spec_get_bits(inst, idx, 2), coding),
{
    let bits = get_bits(inst, idx, 2);
    match coding {
        SizeCoding::Pink => {
            if bits == 0b00 {
                Size::Byte
            } else if bits == 0b01 {
                Size::Word
            } else {
                Size::Long
            }
        },
        SizeCoding::Purple => {
            if bits == 0b01 {
                Size::Byte
            } else if bits == 0b11 {
                Size::Word
            } else {
                Size::Long
            }
        },
    }
}

/// A binary-coded-decimal digit stands for itself.
pub fn nibble_to_bcd(byte: u8) -> (r: u8)
    requires
        byte < 10,
    ensures
        r == byte,
{
    match byte {
        0b0000 => 0b0000,
        0b0001 => 0b0001,
        0b0010 => 0b0010,
        0b0011 => 0b0011,
        0b0100 => 0b0100,
        0b0101 => 0b0101,
        0b0110 => 0b0110,
        0b0111 => 0b0111,
        0b1000 => 0b1000,
        _ => 0b1001,
    }
}

/// Pack a number below one hundred into two binary-coded-decimal digits.
pub fn byte_to_packed_bcd(byte: u8) -> (r: u8)
    requires
        byte < 100,
    ensures
        r == (byte / 10) * 16 + byte % 10,
{
    let hi = nibble_to_bcd(byte / 10);
    let lo = nibble_to_bcd(byte % 10);
    hi * 16 + lo
}

} // verus!
