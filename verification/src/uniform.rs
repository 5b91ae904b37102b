//! Parameter blocks as the kernels see them: a run of 32-bit words, handed to
//! the device as bytes.

use vstd::prelude::*;
use vstd::slice::slice_to_vec;

verus! {

/// Bytes that one word occupies in a uniform buffer.
pub const WORD_BYTES: u64 = 4;

/// The largest number of words whose byte size still fits a `u64`.
pub const MAX_SIZED_WORDS: u64 = 0x3fff_ffff_ffff_ffff;

/// The four bytes of a word, lowest byte first.
pub open spec fn le_bytes(word: u32) -> Seq<u8> {
    seq![
        (word % 256) as u8,
        (word / 256 % 256) as u8,
        (word / 65536 % 256) as u8,
        (word / 16777216) as u8,
    ]
}

/// The four bytes of a word, highest byte first.
pub open spec fn be_bytes(word: u32) -> Seq<u8> {
    seq![
        (word / 16777216) as u8,
        (word / 65536 % 256) as u8,
        (word / 256 % 256) as u8,
        (word % 256) as u8,
    ]
}

/// The bytes of a word in one of the two byte orders.
pub open spec fn word_bytes(word: u32, big_endian: bool) -> Seq<u8> {
    if big_endian {
        be_bytes(word)
    } else {
        le_bytes(word)
    }
}

/// The words laid out one after the other, four bytes each: byte `i` is byte
/// `i % 4` of word `i / 4`.
pub open spec fn layout(words: Seq<u32>, big_endian: bool) -> Seq<u8> {
    Seq::new(4 * words.len(), |i: int| word_bytes(words[i / 4], big_endian)[i % 4])
}

/// `bytes` is the memory image of `words` on a machine of either byte order.
pub open spec fn is_native_layout(bytes: Seq<u8>, words: Seq<u32>) -> bool {
    bytes == layout(words, false) || bytes == layout(words, true)
}

/// Size in bytes of a block of `len` words: `None` for an empty block, and
/// for one too long for its size to be a `u64`.
pub open spec fn spec_memsize(len: nat) -> Option<u64> {
    if 0 < len <= MAX_SIZED_WORDS {
        Some((WORD_BYTES * len) as u64)
    } else {
        None
    }
}

/// The words seen as the bytes they occupy in memory.
///
/// Trusted: calls `bytemuck::cast_slice` from `u32` to `u8`, which returns
/// the same memory as a byte slice four times as long. The cast cannot fail,
/// since bytes need no alignment and every length is a whole number of
/// bytes. The contract claims that the bytes are the words in order, each in
/// the byte order of the machine, which is one of the two.
#[verifier::external_body]
pub fn cast_slice(data: &[u32]) -> (bytes: &[u8])
    ensures
        is_native_layout(bytes@, data@),
{
    bytemuck::cast_slice(data)
}

/// A parameter block that is uploaded to a uniform buffer.
pub trait Uniform: Sized {
    /// The words of the block, in the order of its fields.
    spec fn spec_words(&self) -> Seq<u32>;

    /// The words of the block, in the order of its fields.
    fn words(&self) -> (w: Vec<u32>)
        ensures
            w@ == self.spec_words(),
    ;

    /// Size of the block in bytes, as the binding layout wants it.
    fn memsize(&self) -> (size: Option<u64>)
        ensures
            size == spec_memsize(self.spec_words().len()),
    {
        let w = self.words();
        let len: usize = w.len();
        if len == 0 || len as u64 > MAX_SIZED_WORDS {
            None
        } else {
            Some(WORD_BYTES * (len as u64))
        }
    }

    /// The block as the bytes that are written to its uniform buffer.
    fn to_bytes(&self) -> (bytes: Vec<u8>)
        ensures
            is_native_layout(bytes@, self.spec_words()),
    {
        let w = self.words();
        slice_to_vec(cast_slice(w.as_slice()))
    }
}

} // verus!
