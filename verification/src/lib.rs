//! A safe, verified driving layer for a native shader cross-compiler.
//!
//! The native engine parses a buffer of 32-bit words into an intermediate
//! representation and generates source text for a target shading language
//! (GLSL, HLSL or MSL). This crate holds everything on this side of that
//! boundary: the byte-to-word adapter, the status and error model, the
//! context's error channel, the ownership modes of a parsed intermediate
//! representation, and the builders that stage typed option values before
//! a compilation is invoked.

use vstd::prelude::*;

pub mod compiler;
mod context;
mod error;
mod parsed_ir;

pub use compiler::Compiler;
pub use context::Context;
pub use error::Error;
pub use error::spec_result_of_code;
pub use error::spvc_result;
pub use parsed_ir::OwnedParsedIr;
pub use parsed_ir::ParsedIr;
pub use parsed_ir::spvc_capture_mode;

verus! {

/// The size of one word of the binary shader format, in bytes.
pub const WORD_SIZE: usize = 4;

/// The value of a word assembled from four bytes, least significant first.
pub open spec fn word_of_bytes(b0: u8, b1: u8, b2: u8, b3: u8) -> u32 {
    (b0 + 0x100 * b1 + 0x1_0000 * b2 + 0x100_0000 * b3) as u32
}

/// The four bytes of a word, least significant first.
pub open spec fn bytes_of_word(w: u32) -> Seq<u8> {
    seq![
        (w % 0x100) as u8,
        ((w / 0x100) % 0x100) as u8,
        ((w / 0x1_0000) % 0x100) as u8,
        ((w / 0x100_0000) % 0x100) as u8,
    ]
}

/// The word buffer read from a byte buffer whose length is a multiple of four.
pub open spec fn spec_bytes_to_words(bytes: Seq<u8>) -> Seq<u32> {
    Seq::new(
        bytes.len() / 4,
        |i: int| word_of_bytes(bytes[4 * i], bytes[4 * i + 1], bytes[4 * i + 2], bytes[4 * i + 3]),
    )
}

/// The byte buffer that lays out each word of a word buffer in order.
pub open spec fn spec_words_to_bytes(words: Seq<u32>) -> Seq<u8> {
    Seq::new(4 * words.len(), |i: int| bytes_of_word(words[i / 4])[i % 4])
}

/// Converts a byte buffer into a buffer of 32-bit words.
///
/// Returns `None` exactly when the number of bytes is not a whole number of
/// words; otherwise the result holds one word for every four bytes, least
/// significant byte first.
pub fn bytes_to_words(bytes: &[u8]) -> (r: Option<Vec<u32>>)
    ensures
        r is Some <==> bytes@.len() % 4 == 0,
        r matches Some(words) ==> words@ == spec_bytes_to_words(bytes@),
{
    if bytes.len() % WORD_SIZE != 0 {
        return None;
    }
    let word_count: usize = bytes.len() / WORD_SIZE;
    assert(4 * word_count == bytes@.len());
    let mut words: Vec<u32> = Vec::new();
    let mut i: usize = 0;
    while i < word_count
        invariant
            word_count == bytes@.len() / 4,
            4 * word_count == bytes@.len(),
            bytes@.len() <= usize::MAX,
            i <= word_count,
            words@.len() == i,
            forall|j: int| 0 <= j < i ==> words@[j] == spec_bytes_to_words(bytes@)[j],
        decreases word_count - i,
    {
        let b0 = bytes[4 * i];
        let b1 = bytes[4 * i + 1];
        let b2 = bytes[4 * i + 2];
        let b3 = bytes[4 * i + 3];
        let w: u32 = (b0 as u32) + 0x100 * (b1 as u32) + 0x1_0000 * (b2 as u32) + 0x100_0000
            * (b3 as u32);
        words.push(w);
        i = i + 1;
    }
    assert(words@ =~= spec_bytes_to_words(bytes@));
    Some(words)
}

/// Lays a word buffer back out as bytes, least significant byte of each word
/// first, so that a buffer produced by `bytes_to_words` reads back as the
/// original bytes.
pub fn words_to_bytes(words: &[u32]) -> (r: Vec<u8>)
    requires
        4 * words@.len() <= usize::MAX,
    ensures
        r@ == spec_words_to_bytes(words@),
{
    let mut bytes: Vec<u8> = Vec::new();
    let mut i: usize = 0;
    while i < words.len()
        invariant
            i <= words@.len(),
            4 * words@.len() <= usize::MAX,
            bytes@.len() == 4 * i,
            forall|j: int| 0 <= j < 4 * i ==> bytes@[j] == spec_words_to_bytes(words@)[j],
        decreases words@.len() - i,
    {
        let w = words[i];
        bytes.push((w % 0x100) as u8);
        bytes.push(((w / 0x100) % 0x100) as u8);
        bytes.push(((w / 0x1_0000) % 0x100) as u8);
        bytes.push((w / 0x100_0000) as u8);
        assert forall|k: int| 0 <= k < 4 implies #[trigger] spec_words_to_bytes(words@)[4 * i + k]
            == bytes_of_word(words@[i as int])[k] by {
            assert((4 * i + k) / 4 == i);
            assert((4 * i + k) % 4 == k);
        }
        assert(w / 0x100_0000 == (w / 0x100_0000) % 0x100);
        i = i + 1;
    }
    assert(bytes@ =~= spec_words_to_bytes(words@));
    bytes
}

/// The least significant byte of an assembled word is its first byte, and so
/// on for the other three places.
proof fn lemma_word_extract(b0: u8, b1: u8, b2: u8, b3: u8)
    ensures
        bytes_of_word(word_of_bytes(b0, b1, b2, b3)) == seq![b0, b1, b2, b3],
{
    assert(word_of_bytes(b0, b1, b2, b3) % 0x100 == b0 && (word_of_bytes(b0, b1, b2, b3)
        / 0x100) % 0x100 == b1 && (word_of_bytes(b0, b1, b2, b3) / 0x1_0000) % 0x100 == b2 && (
    word_of_bytes(b0, b1, b2, b3) / 0x100_0000) % 0x100 == b3) by (bit_vector);
    assert(bytes_of_word(word_of_bytes(b0, b1, b2, b3)) =~= seq![b0, b1, b2, b3]);
}

/// Round trip: a byte buffer that divides into whole words is reproduced
/// exactly when the words read from it are laid back out as bytes.
pub proof fn lemma_bytes_words_round_trip(bytes: Seq<u8>)
    requires
        bytes.len() % 4 == 0,
    ensures
        spec_words_to_bytes(spec_bytes_to_words(bytes)) == bytes,
{
    let words = spec_bytes_to_words(bytes);
    assert(4 * words.len() == bytes.len());
    assert forall|i: int| 0 <= i < bytes.len() implies #[trigger] spec_words_to_bytes(words)[i]
        == bytes[i] by {
        let q = i / 4;
        let r = i % 4;
        assert(i == 4 * q + r && 0 <= r < 4 && 0 <= q < words.len());
        lemma_word_extract(bytes[4 * q], bytes[4 * q + 1], bytes[4 * q + 2], bytes[4 * q + 3]);
        assert(words[q] == word_of_bytes(bytes[4 * q], bytes[4 * q + 1], bytes[4 * q + 2], bytes[4
            * q + 3]));
        assert(bytes_of_word(words[q])[r] == seq![bytes[4 * q], bytes[4 * q + 1], bytes[4 * q + 2], bytes[4 * q + 3]][r]);
    }
    assert(spec_words_to_bytes(words) =~= bytes);
}

} // verus!
