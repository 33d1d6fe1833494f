//! Bytes, nibbles and 16-bit words, and how they pack into larger values.
//!
//! The packing is stated in plain arithmetic: a byte is a digit in base 256,
//! a nibble a digit in base 16. The executable helpers shift and mask, and
//! are proved to compute the same digits.

use vstd::prelude::*;
use vstd::arithmetic::div_mod::{
    lemma_fundamental_div_mod, lemma_fundamental_div_mod_converse_div,
    lemma_fundamental_div_mod_converse_mod,
};

verus! {

/// The 16-bit word whose high byte is `hi` and whose low byte is `lo`.
pub open spec fn word_of(hi: u8, lo: u8) -> u16 {
    (hi * 256 + lo) as u16
}

/// The high byte of a 16-bit word.
pub open spec fn high_byte(w: u16) -> u8 {
    (w / 256) as u8
}

/// The low byte of a 16-bit word.
pub open spec fn low_byte(w: u16) -> u8 {
    (w % 256) as u8
}

/// Joins two bytes, high byte first.
pub fn make_word(hi: u8, lo: u8) -> (w: u16)
    ensures
        w == word_of(hi, lo),
{
    let h: u16 = hi as u16;
    let l: u16 = lo as u16;
    h * 256 + l
}

/// Splits a 16-bit word into its high and its low byte.
pub fn split_word(w: u16) -> (bytes: (u8, u8))
    ensures
        bytes.0 == high_byte(w),
        bytes.1 == low_byte(w),
{
    ((w / 256) as u8, (w % 256) as u8)
}

/// Splitting a word and joining the halves gives the word back.
pub proof fn lemma_split_then_join(w: u16)
    ensures
        word_of(high_byte(w), low_byte(w)) == w,
{
    lemma_fundamental_div_mod(w as int, 256);
}

/// Joining two bytes and splitting the word gives the bytes back.
pub proof fn lemma_join_then_split(hi: u8, lo: u8)
    ensures
        high_byte(word_of(hi, lo)) == hi,
        low_byte(word_of(hi, lo)) == lo,
{
    assert(word_of(hi, lo) == hi * 256 + lo);
    lemma_fundamental_div_mod_converse_div(hi * 256 + lo, 256, hi as int, lo as int);
    lemma_fundamental_div_mod_converse_mod(hi * 256 + lo, 256, hi as int, lo as int);
}

/// The first byte of an instruction word: bits 24 to 31.
pub open spec fn byte0(w: u32) -> u8 {
    (w / 0x100_0000) as u8
}

/// The second byte of an instruction word: bits 16 to 23.
pub open spec fn byte1(w: u32) -> u8 {
    ((w / 0x1_0000) % 0x100) as u8
}

/// The third byte of an instruction word: bits 8 to 15.
pub open spec fn byte2(w: u32) -> u8 {
    ((w / 0x100) % 0x100) as u8
}

/// The fourth byte of an instruction word: bits 0 to 7.
pub open spec fn byte3(w: u32) -> u8 {
    (w % 0x100) as u8
}

/// The low half of an instruction word: bits 0 to 15.
pub open spec fn low_half(w: u32) -> u16 {
    (w % 0x1_0000) as u16
}

/// The 32-bit word made of four bytes, the first of them on top.
pub open spec fn word32(b0: u8, b1: u8, b2: u8, b3: u8) -> u32 {
    (b0 * 0x100_0000 + b1 * 0x1_0000 + b2 * 0x100 + b3) as u32
}

/// The high nibble of a byte: bits 4 to 7.
pub open spec fn high_nibble(b: u8) -> u8 {
    b / 16
}

/// The low nibble of a byte: bits 0 to 3.
pub open spec fn low_nibble(b: u8) -> u8 {
    b % 16
}

/// The byte made of two nibbles. Of each argument only the low four bits
/// are used.
pub open spec fn nibbles(hi: u8, lo: u8) -> u8 {
    ((hi % 16) * 16 + lo % 16) as u8
}

/// Takes an instruction word apart into its four bytes, first byte first.
pub fn split_word32(w: u32) -> (bytes: (u8, u8, u8, u8))
    ensures
        bytes.0 == byte0(w),
        bytes.1 == byte1(w),
        bytes.2 == byte2(w),
        bytes.3 == byte3(w),
        word_of(bytes.2, bytes.3) == low_half(w),
{
    assert((w >> 24) == w / 0x100_0000 && (w >> 24) < 0x100) by (bit_vector);
    assert((w >> 16) & 0xFF == (w / 0x1_0000) % 0x100) by (bit_vector);
    assert((w >> 8) & 0xFF == (w / 0x100) % 0x100) by (bit_vector);
    assert(w & 0xFF == w % 0x100) by (bit_vector);
    ((w >> 24) as u8, ((w >> 16) & 0xFF) as u8, ((w >> 8) & 0xFF) as u8, (w & 0xFF) as u8)
}

/// Puts four bytes together into an instruction word, first byte on top.
pub fn make_word32(b0: u8, b1: u8, b2: u8, b3: u8) -> (w: u32)
    ensures
        w == word32(b0, b1, b2, b3),
{
    let x0: u32 = b0 as u32;
    let x1: u32 = b1 as u32;
    let x2: u32 = b2 as u32;
    let x3: u32 = b3 as u32;
    assert((x0 << 24) | (x1 << 16) | (x2 << 8) | x3 == x0 * 0x100_0000 + x1 * 0x1_0000 + x2 * 0x100
        + x3) by (bit_vector)
        requires
            x0 < 0x100,
            x1 < 0x100,
            x2 < 0x100,
            x3 < 0x100,
    ;
    (x0 << 24) | (x1 << 16) | (x2 << 8) | x3
}

/// Takes a byte apart into its high and its low nibble.
pub fn split_byte(b: u8) -> (parts: (u8, u8))
    ensures
        parts.0 == high_nibble(b),
        parts.1 == low_nibble(b),
        parts.0 < 16,
        parts.1 < 16,
{
    assert(b >> 4 == b / 16 && b & 0x0F == b % 16) by (bit_vector);
    (b >> 4, b & 0x0F)
}

/// Puts the low four bits of `hi` and of `lo` together into a byte.
pub fn make_byte(hi: u8, lo: u8) -> (b: u8)
    ensures
        b == nibbles(hi, lo),
{
    assert(((hi & 0x0F) << 4) | (lo & 0x0F) == (hi % 16) * 16 + lo % 16) by (bit_vector);
    ((hi & 0x0F) << 4) | (lo & 0x0F)
}

/// Taking apart what was put together gives the parts back: the four bytes
/// of a word, and its low half.
pub proof fn lemma_word32_bytes(b0: u8, b1: u8, b2: u8, b3: u8)
    ensures
        byte0(word32(b0, b1, b2, b3)) == b0,
        byte1(word32(b0, b1, b2, b3)) == b1,
        byte2(word32(b0, b1, b2, b3)) == b2,
        byte3(word32(b0, b1, b2, b3)) == b3,
        low_half(word32(b0, b1, b2, b3)) == word_of(b2, b3),
{
    let x: int = b0 * 0x100_0000 + b1 * 0x1_0000 + b2 * 0x100 + b3;
    let top3: int = b0 * 0x1_0000 + b1 * 0x100 + b2;
    let top2: int = b0 * 0x100 + b1;
    let low2: int = b2 * 0x100 + b3;
    assert(word32(b0, b1, b2, b3) == x);
    lemma_fundamental_div_mod_converse_div(x, 0x100_0000, b0 as int, b1 * 0x1_0000 + low2);
    lemma_fundamental_div_mod_converse_div(x, 0x1_0000, top2, low2);
    lemma_fundamental_div_mod_converse_mod(x, 0x1_0000, top2, low2);
    lemma_fundamental_div_mod_converse_mod(top2, 0x100, b0 as int, b1 as int);
    lemma_fundamental_div_mod_converse_div(x, 0x100, top3, b3 as int);
    lemma_fundamental_div_mod_converse_mod(x, 0x100, top3, b3 as int);
    lemma_fundamental_div_mod_converse_mod(top3, 0x100, top2, b2 as int);
}

/// Taking apart what was put together gives the parts back: the two nibbles
/// of a byte.
pub proof fn lemma_nibbles(hi: u8, lo: u8)
    requires
        hi < 16,
        lo < 16,
    ensures
        high_nibble(nibbles(hi, lo)) == hi,
        low_nibble(nibbles(hi, lo)) == lo,
{
    assert(nibbles(hi, lo) == hi * 16 + lo);
    lemma_fundamental_div_mod_converse_div(hi * 16 + lo, 16, hi as int, lo as int);
    lemma_fundamental_div_mod_converse_mod(hi * 16 + lo, 16, hi as int, lo as int);
}

} // verus!
