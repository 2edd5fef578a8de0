//! Word composition helpers: 16-bit values are little-endian compositions of
//! two 8-bit words.

use vstd::prelude::*;

verus! {

/// The low byte of a 16-bit value.
pub open spec fn spec_lo(word: u16) -> u8 {
    (word % 0x100) as u8
}

/// The high byte of a 16-bit value.
pub open spec fn spec_hi(word: u16) -> u8 {
    (word / 0x100) as u8
}

/// The 16-bit value composed from a low and a high byte.
pub open spec fn spec_pack(lo: u8, hi: u8) -> u16 {
    (lo + hi * 0x100) as u16
}

/// Return a double word composed from two words, the low byte first.
pub fn pack_words(lo: u8, hi: u8) -> (r: u16)
    ensures
        r == spec_pack(lo, hi),
{
    lo as u16 + (hi as u16) * 0x100
}

/// Return the two bytes of a double word as `(lo, hi)`.
pub fn split_doubleword(word: u16) -> (r: (u8, u8))
    ensures
        r.0 == spec_lo(word),
        r.1 == spec_hi(word),
{
    ((word % 0x100) as u8, (word / 0x100) as u8)
}

/// Return the two nibbles of a word as `(low nibble, high nibble)`.
pub fn split_word(word: u8) -> (r: (u8, u8))
    ensures
        r.0 == word % 0x10,
        r.1 == word / 0x10,
{
    (word % 0x10, word / 0x10)
}

/// Splitting a double word and packing the two halves again returns the
/// original value, for every 16-bit value.
pub proof fn lemma_split_then_pack_roundtrip(word: u16)
    ensures
        spec_pack(spec_lo(word), spec_hi(word)) == word,
{
}

/// Packing two bytes and splitting the result returns exactly the two
/// original bytes, for every pair of bytes.
pub proof fn lemma_pack_then_split_roundtrip(lo: u8, hi: u8)
    ensures
        spec_lo(spec_pack(lo, hi)) == lo,
        spec_hi(spec_pack(lo, hi)) == hi,
{
}

} // verus!
