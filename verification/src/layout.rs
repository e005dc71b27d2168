//! Byte layouts at the GPU boundary: the little-endian word codec shared by
//! shader-module loading and push-constant packing, the push-constant block
//! (a column-major 4×4 transform followed by an opacity scalar), and the
//! vertex and uniform buffer layouts.
//!
//! Scalars live here as their 32-bit little-endian bit patterns; the caller
//! converts to and from its floating-point values at the boundary.

use vstd::prelude::*;

verus! {

/// Byte stride of one vertex: position, color, texture coordinate.
pub const VERTEX_STRIDE: u32 = 32;

/// Byte offset of the 3-component position within a vertex.
pub const VERTEX_POSITION_OFFSET: u32 = 0;

/// Byte offset of the 3-component color within a vertex.
pub const VERTEX_COLOR_OFFSET: u32 = 12;

/// Byte offset of the 2-component texture coordinate within a vertex.
pub const VERTEX_TEX_COORD_OFFSET: u32 = 24;

/// Byte offset of the 4×4 transform within the push-constant block.
pub const PUSH_TRANSFORM_OFFSET: u32 = 0;

/// Byte size of the 4×4 transform: sixteen 32-bit scalars.
pub const PUSH_TRANSFORM_SIZE: u32 = 64;

/// Byte offset of the opacity scalar within the push-constant block.
pub const PUSH_OPACITY_OFFSET: u32 = 64;

/// Byte size of the opacity scalar.
pub const PUSH_OPACITY_SIZE: u32 = 4;

/// Byte size of the whole push-constant block.
pub const PUSH_CONSTANT_SIZE: u32 = 68;

/// Number of 32-bit words in the 4×4 transform.
pub const TRANSFORM_WORDS: usize = 16;

/// Byte size of the per-image uniform buffer: two 4×4 matrices, view then
/// projection.
pub const UNIFORM_BUFFER_SIZE: u32 = 128;

/// Bytes per index of the index buffer (32-bit indices).
pub const INDEX_SIZE: u32 = 4;

/// The four bytes of a 32-bit word, least significant first.
pub open spec fn word_bytes(w: u32) -> Seq<u8> {
    seq![
        (w & 0xff) as u8,
        ((w >> 8) & 0xff) as u8,
        ((w >> 16) & 0xff) as u8,
        ((w >> 24) & 0xff) as u8,
    ]
}

/// The 32-bit word read from four bytes, least significant first.
pub open spec fn word_of_bytes(b0: u8, b1: u8, b2: u8, b3: u8) -> u32 {
    (b0 as u32) | ((b1 as u32) << 8) | ((b2 as u32) << 16) | ((b3 as u32) << 24)
}

/// A word sequence laid out as little-endian bytes.
pub open spec fn words_to_bytes(words: Seq<u32>) -> Seq<u8> {
    Seq::new(words.len() * 4, |i: int| word_bytes(words[i / 4])[i % 4])
}

/// The word sequence read back from little-endian bytes (whole words only).
pub open spec fn bytes_to_words(bytes: Seq<u8>) -> Seq<u32> {
    Seq::new(
        bytes.len() / 4,
        |i: int| word_of_bytes(bytes[4 * i], bytes[4 * i + 1], bytes[4 * i + 2], bytes[4 * i + 3]),
    )
}

/// Reading a word's four bytes back yields the word.
pub proof fn lemma_word_codec(w: u32)
    ensures
        word_of_bytes(
            (w & 0xff) as u8,
            ((w >> 8) & 0xff) as u8,
            ((w >> 16) & 0xff) as u8,
            ((w >> 24) & 0xff) as u8,
        ) == w,
{
    assert((((w & 0xff) as u8) as u32) | (((((w >> 8) & 0xff) as u8) as u32) << 8) | (((((w >> 16)
        & 0xff) as u8) as u32) << 16) | (((((w >> 24) & 0xff) as u8) as u32) << 24) == w)
        by (bit_vector);
}

/// Laying words out as bytes and reading them back yields the words.
pub proof fn lemma_words_roundtrip(words: Seq<u32>)
    ensures
        bytes_to_words(words_to_bytes(words)) =~= words,
{
    let bytes = words_to_bytes(words);
    assert(bytes.len() == words.len() * 4);
    assert forall|i: int| 0 <= i < words.len() implies bytes_to_words(bytes)[i] == words[i] by {
        assert(bytes[4 * i] == word_bytes(words[i])[0]);
        assert(bytes[4 * i + 1] == word_bytes(words[i])[1]);
        assert(bytes[4 * i + 2] == word_bytes(words[i])[2]);
        assert(bytes[4 * i + 3] == word_bytes(words[i])[3]);
        lemma_word_codec(words[i]);
    }
}

/// Appending one word appends its four bytes.
pub proof fn lemma_words_to_bytes_push(words: Seq<u32>, w: u32)
    ensures
        words_to_bytes(words.push(w)) =~= words_to_bytes(words) + word_bytes(w),
{
}

/// Lays a word sequence out as little-endian bytes, as the GPU consumes
/// them.
pub fn encode_words(words: &Vec<u32>) -> (r: Vec<u8>)
    requires
        words@.len() * 4 <= usize::MAX,
    ensures
        r@ == words_to_bytes(words@),
        r@.len() == words@.len() * 4,
{
    let mut r: Vec<u8> = Vec::new();
    let mut k: usize = 0;
    while k < words.len()
        invariant
            k <= words@.len(),
            words@.len() * 4 <= usize::MAX,
            r@ =~= words_to_bytes(words@.take(k as int)),
            r@.len() == k * 4,
        decreases words@.len() - k,
    {
        let w = words[k];
        r.push((w & 0xff) as u8);
        r.push(((w >> 8) & 0xff) as u8);
        r.push(((w >> 16) & 0xff) as u8);
        r.push(((w >> 24) & 0xff) as u8);
        proof {
            lemma_words_to_bytes_push(words@.take(k as int), w);
            assert(words@.take(k as int).push(w) =~= words@.take(k as int + 1));
            assert(r@ =~= words_to_bytes(words@.take(k as int + 1)));
        }
        k += 1;
    }
    proof {
        assert(words@.take(words@.len() as int) =~= words@);
    }
    r
}

/// Reads a byte sequence back as 32-bit words, as shader bytecode is
/// loaded; `None` exactly when the byte count is not a whole number of
/// words.
pub fn decode_words(bytes: &Vec<u8>) -> (r: Option<Vec<u32>>)
    ensures
        match r {
            Some(ws) => {
                &&& bytes@.len() % 4 == 0
                &&& ws@ == bytes_to_words(bytes@)
            },
            None => bytes@.len() % 4 != 0,
        },
{
    if bytes.len() % 4 != 0 {
        return None;
    }
    let n = bytes.len() / 4;
    proof {
        assert(4 * n == bytes@.len());
    }
    let mut ws: Vec<u32> = Vec::new();
    let mut k: usize = 0;
    while k < n
        invariant
            k <= n,
            n == bytes@.len() / 4,
            4 * n == bytes@.len(),
            bytes@.len() <= usize::MAX,
            bytes@.len() % 4 == 0,
            ws@ =~= bytes_to_words(bytes@).take(k as int),
            ws@.len() == k,
        decreases n - k,
    {
        let b0 = bytes[4 * k];
        let b1 = bytes[4 * k + 1];
        let b2 = bytes[4 * k + 2];
        let b3 = bytes[4 * k + 3];
        let w = (b0 as u32) | ((b1 as u32) << 8) | ((b2 as u32) << 16) | ((b3 as u32) << 24);
        ws.push(w);
        proof {
            assert(ws@ =~= bytes_to_words(bytes@).take(k as int + 1));
        }
        k += 1;
    }
    proof {
        assert(bytes_to_words(bytes@).take(n as int) =~= bytes_to_words(bytes@));
    }
    Some(ws)
}

/// The push-constant block for one draw: sixteen transform words followed
/// by the opacity word, 68 bytes with no padding.
pub fn encode_push_constants(transform: &Vec<u32>, opacity_bits: u32) -> (r: Vec<u8>)
    requires
        transform@.len() == TRANSFORM_WORDS,
    ensures
        r@ == words_to_bytes(transform@.push(opacity_bits)),
        r@.len() == PUSH_CONSTANT_SIZE,
        r@.subrange(0, 64) == words_to_bytes(transform@),
        r@.subrange(64, 68) == word_bytes(opacity_bits),
{
    let mut r = encode_words(transform);
    r.push((opacity_bits & 0xff) as u8);
    r.push(((opacity_bits >> 8) & 0xff) as u8);
    r.push(((opacity_bits >> 16) & 0xff) as u8);
    r.push(((opacity_bits >> 24) & 0xff) as u8);
    proof {
        lemma_words_to_bytes_push(transform@, opacity_bits);
        assert(r@ =~= words_to_bytes(transform@.push(opacity_bits)));
        assert(r@.subrange(0, 64) =~= words_to_bytes(transform@));
        assert(r@.subrange(64, 68) =~= word_bytes(opacity_bits));
    }
    r
}

/// Reads a push-constant block back: the transform words and the opacity
/// word; `None` exactly when the length is not the block's 68 bytes.
pub fn decode_push_constants(bytes: &Vec<u8>) -> (r: Option<(Vec<u32>, u32)>)
    ensures
        match r {
            Some(p) => {
                &&& bytes@.len() == PUSH_CONSTANT_SIZE
                &&& p.0@ == bytes_to_words(bytes@).take(16)
                &&& p.0@.len() == TRANSFORM_WORDS
                &&& p.1 == bytes_to_words(bytes@)[16]
            },
            None => bytes@.len() != PUSH_CONSTANT_SIZE,
        },
{
    if bytes.len() != 68 {
        return None;
    }
    let words = match decode_words(bytes) {
        Some(ws) => ws,
        None => {
            return None;
        },
    };
    let opacity_bits = words[16];
    let mut transform = words;
    transform.pop();
    proof {
        assert(transform@ =~= bytes_to_words(bytes@).take(16));
    }
    Some((transform, opacity_bits))
}

/// A transform-and-opacity pair laid out as the push-constant block and
/// read back as raw bytes round-trips exactly: 64 bytes of matrix, 4 bytes
/// of opacity, no padding drift.
pub proof fn lemma_push_constants_roundtrip(transform: Seq<u32>, opacity_bits: u32)
    requires
        transform.len() == TRANSFORM_WORDS,
    ensures
        words_to_bytes(transform.push(opacity_bits)).len() == PUSH_CONSTANT_SIZE,
        bytes_to_words(words_to_bytes(transform.push(opacity_bits))).take(16) =~= transform,
        bytes_to_words(words_to_bytes(transform.push(opacity_bits)))[16] == opacity_bits,
{
    lemma_words_roundtrip(transform.push(opacity_bits));
    assert(bytes_to_words(words_to_bytes(transform.push(opacity_bits))).take(16) =~= transform);
}

/// Byte size of a vertex buffer holding `count` vertices; `None` exactly
/// when the size does not fit the device-size type.
pub fn vertex_buffer_size(count: usize) -> (r: Option<u64>)
    ensures
        match r {
            Some(s) => s == count * VERTEX_STRIDE,
            None => count * VERTEX_STRIDE > u64::MAX,
        },
{
    if count as u64 <= u64::MAX / 32 {
        Some((count as u64) * 32)
    } else {
        None
    }
}

/// Byte size of an index buffer holding `count` 32-bit indices; `None`
/// exactly when the size does not fit the device-size type.
pub fn index_buffer_size(count: usize) -> (r: Option<u64>)
    ensures
        match r {
            Some(s) => s == count * INDEX_SIZE,
            None => count * INDEX_SIZE > u64::MAX,
        },
{
    if count as u64 <= u64::MAX / 4 {
        Some((count as u64) * 4)
    } else {
        None
    }
}

} // verus!
