//! Byte images of index and vertex data.
//!
//! Buffers are uploaded as raw bytes. The words are reinterpreted in place by
//! `bytemuck`, so the bytes come out in the byte order of the machine; the
//! contracts here say what that means for either order.

use vstd::prelude::*;

verus! {

/// The order in which a machine lays the bytes of an integer in memory.
#[derive(Clone, Copy, Debug, PartialEq, Eq)]
pub enum ByteOrder {
    /// Least significant byte first.
    Little,
    /// Most significant byte first.
    Big,
}

/// The two bytes of `x` in the given order.
pub open spec fn u16_bytes(order: ByteOrder, x: u16) -> Seq<u8> {
    let lo = (x % 256) as u8;
    let hi = (x / 256) as u8;
    match order {
        ByteOrder::Little => seq![lo, hi],
        ByteOrder::Big => seq![hi, lo],
    }
}

/// The four bytes of `x` in the given order.
pub open spec fn u32_bytes(order: ByteOrder, x: u32) -> Seq<u8> {
    let b0 = (x % 256) as u8;
    let b1 = (x / 0x100 % 256) as u8;
    let b2 = (x / 0x1_0000 % 256) as u8;
    let b3 = (x / 0x100_0000) as u8;
    match order {
        ByteOrder::Little => seq![b0, b1, b2, b3],
        ByteOrder::Big => seq![b3, b2, b1, b0],
    }
}

/// The byte image of a sequence of 16-bit values: two bytes for each, in
/// sequence order.
pub open spec fn u16s_bytes(order: ByteOrder, xs: Seq<u16>) -> Seq<u8> {
    Seq::new(2 * xs.len(), |i: int| u16_bytes(order, xs[i / 2])[i % 2])
}

/// The byte image of a sequence of 32-bit words: four bytes for each, in
/// sequence order.
pub open spec fn u32s_bytes(order: ByteOrder, xs: Seq<u32>) -> Seq<u8> {
    Seq::new(4 * xs.len(), |i: int| u32_bytes(order, xs[i / 4])[i % 4])
}

/// `bytes` is the image of `words` in one of the two byte orders.
pub open spec fn is_words_image(bytes: Seq<u8>, words: Seq<u32>) -> bool {
    bytes == u32s_bytes(ByteOrder::Little, words) || bytes == u32s_bytes(ByteOrder::Big, words)
}

/// `bytes` is the image of `indices` in one of the two byte orders.
pub open spec fn is_indices_image(bytes: Seq<u8>, indices: Seq<u16>) -> bool {
    bytes == u16s_bytes(ByteOrder::Little, indices) || bytes == u16s_bytes(
        ByteOrder::Big,
        indices,
    )
}

/// The 32-bit word whose bytes, in the given order, are `b[at..at + 4]`.
pub open spec fn u32_at(order: ByteOrder, b: Seq<u8>, at: int) -> u32 {
    let (b0, b1, b2, b3) = match order {
        ByteOrder::Little => (b[at], b[at + 1], b[at + 2], b[at + 3]),
        ByteOrder::Big => (b[at + 3], b[at + 2], b[at + 1], b[at]),
    };
    (b0 + 0x100 * b1 + 0x1_0000 * b2 + 0x100_0000 * b3) as u32
}

/// The words that a byte image holds, read in the given order.
pub open spec fn bytes_u32s(order: ByteOrder, b: Seq<u8>) -> Seq<u32> {
    Seq::new((b.len() / 4) as nat, |i: int| u32_at(order, b, 4 * i))
}

/// Reading a byte image back in the order it was written in returns the
/// words that were written.
pub proof fn lemma_u32s_round_trip(order: ByteOrder, xs: Seq<u32>)
    ensures
        u32s_bytes(order, xs).len() == 4 * xs.len(),
        bytes_u32s(order, u32s_bytes(order, xs)) == xs,
{
}

/// `bytemuck::cast_slice` from `u32` to `u8`, copied into a vector.
///
/// The cast reinterprets the words where they lie: four bytes for each word,
/// words in slice order, each word's bytes in the order of the machine. A
/// cast to bytes cannot fail, since bytes have no alignment and any length
/// is a whole number of them.
#[verifier::external_body]
pub(crate) fn words_to_bytes(words: &[u32]) -> (bytes: Vec<u8>)
    ensures
        is_words_image(bytes@, words@),
{
    bytemuck::cast_slice::<u32, u8>(words).to_vec()
}

/// `bytemuck::cast_slice` from `u16` to `u8`, copied into a vector.
///
/// Two bytes for each value, values in slice order, each value's bytes in
/// the order of the machine.
#[verifier::external_body]
pub(crate) fn indices_to_bytes(indices: &[u16]) -> (bytes: Vec<u8>)
    ensures
        is_indices_image(bytes@, indices@),
{
    bytemuck::cast_slice::<u16, u8>(indices).to_vec()
}

} // verus!
