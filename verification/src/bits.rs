//! Nibble and byte arithmetic shared by the decoder and the encoder.
use vstd::prelude::*;

verus! {

/// The upper four bits of a byte.
pub fn high_nibble(byte: u8) -> (n: u8)
    ensures
        n == byte / 16,
{
    assert(byte >> 4 == byte / 16) by (bit_vector);
    byte >> 4
}

/// The lower four bits of a byte.
pub fn low_nibble(byte: u8) -> (n: u8)
    ensures
        n == byte % 16,
{
    assert(byte & 0x0F == byte % 16) by (bit_vector);
    byte & 0x0F
}

/// The big-endian 16-bit word made of two bytes.
pub fn join_bytes(high: u8, low: u8) -> (word: u16)
    ensures
        word == high * 256 + low,
{
    assert((((high as u16) << 8) | (low as u16)) == high * 256 + low) by (bit_vector);
    ((high as u16) << 8) | (low as u16)
}

/// The byte made of two nibbles; only the low four bits of each count.
pub fn join_nibbles(high: u8, low: u8) -> (byte: u8)
    ensures
        byte == (high % 16) * 16 + low % 16,
{
    assert((((high & 0x0F) << 4) | (low & 0x0F)) == (high % 16) * 16 + low % 16) by (bit_vector);
    ((high & 0x0F) << 4) | (low & 0x0F)
}

/// The two bytes of a big-endian 16-bit word.
pub fn split_word(word: u16) -> (bytes: (u8, u8))
    ensures
        bytes.0 == word / 256,
        bytes.1 == word % 256,
{
    assert((word >> 8) == word / 256) by (bit_vector);
    assert((word & 0xFF) == word % 256) by (bit_vector);
    ((word >> 8) as u8, (word & 0xFF) as u8)
}

} // verus!
