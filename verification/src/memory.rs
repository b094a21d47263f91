//! Buffer contents as the device reads them: bytes in host memory order.
//!
//! Buffer records are sequences of 32-bit words (each word is the bit pattern
//! of a single-precision float) and index lists are sequences of 16-bit
//! values. The byte image of such a sequence is what gets uploaded.

use vstd::endian::{endianness, Endian};
use vstd::prelude::*;

verus! {

/// Byte `k` of a 32-bit word as it lies in memory under byte order `order`;
/// `k` is 0 for the byte at the lowest address.
pub open spec fn word_byte(order: Endian, word: u32, k: int) -> u8 {
    let place = match order {
        Endian::Little => k,
        Endian::Big => 3 - k,
    };
    if place == 0 {
        (word % 0x100) as u8
    } else if place == 1 {
        (word / 0x100 % 0x100) as u8
    } else if place == 2 {
        (word / 0x1_0000 % 0x100) as u8
    } else {
        (word / 0x100_0000 % 0x100) as u8
    }
}

/// Byte `k` of a 16-bit value as it lies in memory under byte order `order`.
pub open spec fn half_byte(order: Endian, half: u16, k: int) -> u8 {
    let place = match order {
        Endian::Little => k,
        Endian::Big => 1 - k,
    };
    if place == 0 {
        (half % 0x100) as u8
    } else {
        (half / 0x100 % 0x100) as u8
    }
}

/// The memory image of a sequence of 32-bit words: four bytes per word, the
/// words in order.
pub open spec fn words_image(order: Endian, words: Seq<u32>) -> Seq<u8> {
    Seq::new(4 * words.len(), |i: int| word_byte(order, words[i / 4], i % 4))
}

/// The memory image of a sequence of 16-bit values: two bytes per value, the
/// values in order.
pub open spec fn halves_image(order: Endian, halves: Seq<u16>) -> Seq<u8> {
    Seq::new(2 * halves.len(), |i: int| half_byte(order, halves[i / 2], i % 2))
}

/// What a buffer is bound as.
#[derive(Clone, Copy, Debug, PartialEq, Eq, Structural)]
pub enum BufferUsage {
    Index,
    Vertex,
    Uniform,
}

/// What is uploaded into one device buffer: its contents, and the use that
/// the buffer is created for.
#[derive(Debug, PartialEq, Eq)]
pub struct BufferData {
    pub usage: BufferUsage,
    pub bytes: Vec<u8>,
}

/// The bytes of a slice of 32-bit words, copied out.
///
/// Calls `zerocopy::AsBytes::as_bytes` on the slice. That method hands out
/// the slice's own memory as bytes, so the contract claims the memory image
/// of the words in the byte order of the running machine. Not proved.
#[verifier::external_body]
pub(crate) fn words_as_bytes(words: &[u32]) -> (bytes: Vec<u8>)
    ensures
        bytes@ == words_image(endianness(), words@),
{
    zerocopy::AsBytes::as_bytes(words).to_vec()
}

/// The bytes of a slice of 16-bit values, copied out.
///
/// Calls `zerocopy::AsBytes::as_bytes` on the slice. That method hands out
/// the slice's own memory as bytes, so the contract claims the memory image
/// of the values in the byte order of the running machine. Not proved.
#[verifier::external_body]
pub(crate) fn halves_as_bytes(halves: &[u16]) -> (bytes: Vec<u8>)
    ensures
        bytes@ == halves_image(endianness(), halves@),
{
    zerocopy::AsBytes::as_bytes(halves).to_vec()
}

/// An image holds four bytes for every word, and a word can be read back
/// from its four bytes, whatever the byte order.
pub proof fn lemma_words_image_faithful(order: Endian, words: Seq<u32>, i: int)
    requires
        0 <= i < words.len(),
    ensures
        words_image(order, words).len() == 4 * words.len(),
        order == Endian::Little ==> words[i] == words_image(order, words)[4 * i]
            + 0x100 * words_image(order, words)[4 * i + 1]
            + 0x1_0000 * words_image(order, words)[4 * i + 2]
            + 0x100_0000 * words_image(order, words)[4 * i + 3],
        order == Endian::Big ==> words[i] == words_image(order, words)[4 * i + 3]
            + 0x100 * words_image(order, words)[4 * i + 2]
            + 0x1_0000 * words_image(order, words)[4 * i + 1]
            + 0x100_0000 * words_image(order, words)[4 * i],
{
    let image = words_image(order, words);
    assert(image[4 * i] == word_byte(order, words[i], 0));
    assert(image[4 * i + 1] == word_byte(order, words[i], 1));
    assert(image[4 * i + 2] == word_byte(order, words[i], 2));
    assert(image[4 * i + 3] == word_byte(order, words[i], 3));
}

/// An image holds two bytes for every 16-bit value, and a value can be read
/// back from its two bytes, whatever the byte order.
pub proof fn lemma_halves_image_faithful(order: Endian, halves: Seq<u16>, i: int)
    requires
        0 <= i < halves.len(),
    ensures
        halves_image(order, halves).len() == 2 * halves.len(),
        order == Endian::Little ==> halves[i] == halves_image(order, halves)[2 * i] + 0x100
            * halves_image(order, halves)[2 * i + 1],
        order == Endian::Big ==> halves[i] == halves_image(order, halves)[2 * i + 1] + 0x100
            * halves_image(order, halves)[2 * i],
{
    let image = halves_image(order, halves);
    assert(image[2 * i] == half_byte(order, halves[i], 0));
    assert(image[2 * i + 1] == half_byte(order, halves[i], 1));
}

} // verus!
