//! Byte and address arithmetic.

use vstd::prelude::*;

verus! {

/// The 16-bit word with low byte `lo` and high byte `hi`.
pub open spec fn spec_bytes_to_word(lo: u8, hi: u8) -> u16 {
    (lo + 256 * hi) as u16
}

/// `n` reduced to a 16-bit address: address arithmetic is modulo 65536.
pub open spec fn wrap16(n: int) -> u16 {
    (n % 0x1_0000) as u16
}

/// `n` reduced to a byte: zero-page arithmetic is modulo 256.
pub open spec fn wrap8(n: int) -> u8 {
    (n % 0x100) as u8
}

/// The 256-byte page that an address lies in.
pub open spec fn page_of(addr: u16) -> u16 {
    addr / 256
}

/// Wrapping addition of the machine is addition modulo the size of the type.
pub proof fn lemma_wrapping_add(x16: u16, y16: u16, x8: u8, y8: u8)
    ensures
        vstd::wrapping::u16_specs::wrapping_add(x16, y16) == wrap16(x16 + y16),
        vstd::wrapping::u8_specs::wrapping_add(x8, y8) == wrap8(x8 + y8),
{
}

/// Reducing modulo 65536 in two steps is the same as reducing once.
pub proof fn lemma_wrap16_twice(addr: u16, a: int, b: int)
    requires
        0 <= a <= 0x1_0000,
        0 <= b <= 0x1_0000,
    ensures
        wrap16(wrap16(addr + a) + b) == wrap16(addr + a + b),
{
}

/// Combines two bytes into a word, little endian.
#[verifier::when_used_as_spec(spec_bytes_to_word)]
pub fn bytes_to_word(lo: u8, hi: u8) -> (word: u16)
    ensures
        word == spec_bytes_to_word(lo, hi),
{
    let word = ((hi as u16) << 8) | (lo as u16);
    assert(((hi as u16) << 8) | (lo as u16) == (lo as u16) + 256 * (hi as u16)) by (bit_vector);
    word
}

/// Whether two addresses lie in different pages.
pub fn pages_differ(a: u16, b: u16) -> (differ: bool)
    ensures
        differ == (page_of(a) != page_of(b)),
{
    assert(((a & 0xFF00) != (b & 0xFF00)) <==> (a / 256 != b / 256)) by (bit_vector);
    (a & 0xFF00) != (b & 0xFF00)
}

/// The low 16 bits of a signed number: the number modulo 65536.
pub fn low_word(value: isize) -> (word: u16)
    ensures
        word == wrap16(value as int),
{
    assert(value as u16 == value % 0x1_0000) by (bit_vector);
    #[verifier::truncate]
    (value as u16)
}

/// The low 8 bits of a signed number: the number modulo 256.
pub fn low_byte(value: isize) -> (byte: u8)
    ensures
        byte == wrap8(value as int),
{
    assert(value as u8 == value % 0x100) by (bit_vector);
    #[verifier::truncate]
    (value as u8)
}

} // verus!
