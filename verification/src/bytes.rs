//! The byte decomposition shared by every representation of an address.
//!
//! An address payload is one `u32` whose four bytes are, from least to most
//! significant, the first to fourth byte of the address as it sits in memory
//! on the little-endian machines these socket APIs run on. No conversion in
//! this crate reorders them.

use vstd::prelude::*;

verus! {

/// The first (least significant) byte of the payload word.
pub open spec fn byte0(v: u32) -> u8 {
    (v & 0xFF) as u8
}

/// The second byte of the payload word.
pub open spec fn byte1(v: u32) -> u8 {
    ((v >> 8) & 0xFF) as u8
}

/// The third byte of the payload word.
pub open spec fn byte2(v: u32) -> u8 {
    ((v >> 16) & 0xFF) as u8
}

/// The fourth (most significant) byte of the payload word.
pub open spec fn byte3(v: u32) -> u8 {
    ((v >> 24) & 0xFF) as u8
}

/// The payload word assembled from its four bytes, least significant first.
pub open spec fn word_of_bytes(b0: u8, b1: u8, b2: u8, b3: u8) -> u32 {
    (b0 as u32) | ((b1 as u32) << 8) | ((b2 as u32) << 16) | ((b3 as u32) << 24)
}

/// Splitting a word into bytes and reassembling them yields the word back.
pub proof fn lemma_word_of_bytes_of_word(v: u32)
    ensures
        word_of_bytes(byte0(v), byte1(v), byte2(v), byte3(v)) == v,
{
    assert(((v & 0xFF) as u8 as u32) | ((((v >> 8) & 0xFF) as u8 as u32) << 8) | ((((v >> 16)
        & 0xFF) as u8 as u32) << 16) | ((((v >> 24) & 0xFF) as u8 as u32) << 24) == v)
        by (bit_vector);
}

/// Each byte of a word assembled from four bytes is the byte put in.
pub proof fn lemma_bytes_of_word_of_bytes(b0: u8, b1: u8, b2: u8, b3: u8)
    ensures
        byte0(word_of_bytes(b0, b1, b2, b3)) == b0,
        byte1(word_of_bytes(b0, b1, b2, b3)) == b1,
        byte2(word_of_bytes(b0, b1, b2, b3)) == b2,
        byte3(word_of_bytes(b0, b1, b2, b3)) == b3,
{
    let v = word_of_bytes(b0, b1, b2, b3);
    assert(((((b0 as u32) | ((b1 as u32) << 8) | ((b2 as u32) << 16) | ((b3 as u32) << 24))
        & 0xFF) as u8) == b0) by (bit_vector);
    assert((((((b0 as u32) | ((b1 as u32) << 8) | ((b2 as u32) << 16) | ((b3 as u32) << 24))
        >> 8) & 0xFF) as u8) == b1) by (bit_vector);
    assert((((((b0 as u32) | ((b1 as u32) << 8) | ((b2 as u32) << 16) | ((b3 as u32) << 24))
        >> 16) & 0xFF) as u8) == b2) by (bit_vector);
    assert((((((b0 as u32) | ((b1 as u32) << 8) | ((b2 as u32) << 16) | ((b3 as u32) << 24))
        >> 24) & 0xFF) as u8) == b3) by (bit_vector);
}

/// Extracts the first byte of a word.
pub fn extract_byte0(v: u32) -> (r: u8)
    ensures
        r == byte0(v),
{
    (v & 0xFF) as u8
}

/// Extracts the second byte of a word.
pub fn extract_byte1(v: u32) -> (r: u8)
    ensures
        r == byte1(v),
{
    ((v >> 8) & 0xFF) as u8
}

/// Extracts the third byte of a word.
pub fn extract_byte2(v: u32) -> (r: u8)
    ensures
        r == byte2(v),
{
    ((v >> 16) & 0xFF) as u8
}

/// Extracts the fourth byte of a word.
pub fn extract_byte3(v: u32) -> (r: u8)
    ensures
        r == byte3(v),
{
    ((v >> 24) & 0xFF) as u8
}

/// Assembles a word from its four bytes, least significant first.
pub fn assemble_word(b0: u8, b1: u8, b2: u8, b3: u8) -> (r: u32)
    ensures
        r == word_of_bytes(b0, b1, b2, b3),
{
    (b0 as u32) | ((b1 as u32) << 8) | ((b2 as u32) << 16) | ((b3 as u32) << 24)
}

} // verus!
