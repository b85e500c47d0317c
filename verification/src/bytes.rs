//! Words as the bytes the device reads.

use vstd::prelude::*;

verus! {

/// The order in which a machine lays the four bytes of a word in memory.
#[derive(Clone, Copy, Debug, PartialEq, Eq, Structural)]
pub enum ByteOrder {
    /// Least significant byte first.
    LittleEndian,
    /// Most significant byte first.
    BigEndian,
}

/// Byte `k` of `word`, counted from the least significant one.
pub open spec fn spec_byte_of(word: u32, k: int) -> u8 {
    if k == 0 {
        (word % 0x100) as u8
    } else if k == 1 {
        (word / 0x100 % 0x100) as u8
    } else if k == 2 {
        (word / 0x1_0000 % 0x100) as u8
    } else {
        (word / 0x100_0000) as u8
    }
}

/// The byte at position `i` of the memory image of `words` under `order`.
pub open spec fn spec_image_byte(words: Seq<u32>, order: ByteOrder, i: int) -> u8 {
    match order {
        ByteOrder::LittleEndian => spec_byte_of(words[i / 4], i % 4),
        ByteOrder::BigEndian => spec_byte_of(words[i / 4], 3 - i % 4),
    }
}

/// The memory image of `words` under `order`: four bytes per word, the words
/// in sequence.
pub open spec fn spec_image(words: Seq<u32>, order: ByteOrder) -> Seq<u8> {
    Seq::new(4 * words.len(), |i: int| spec_image_byte(words, order, i))
}

/// True when `bytes` is the memory image of `words` on some machine.
pub open spec fn is_image_of(bytes: Seq<u8>, words: Seq<u32>) -> bool {
    bytes == spec_image(words, ByteOrder::LittleEndian) || bytes == spec_image(
        words,
        ByteOrder::BigEndian,
    )
}

/// `bytemuck::cast_slice` from 32-bit words to bytes, copied into a vector.
///
/// The cast reinterprets the memory of the slice without changing it. It
/// cannot fail in this direction: bytes need no alignment and every word is
/// a whole number of bytes. The result is therefore the words as the machine
/// holds them, in its own byte order, which is not known here.
#[verifier::external_body]
pub(crate) fn cast_words(words: &[u32]) -> (bytes: Vec<u8>)
    ensures
        is_image_of(bytes@, words@),
{
    bytemuck::cast_slice::<u32, u8>(words).to_vec()
}

/// The memory image of a run of words is the matching run of bytes of the
/// memory image of the whole.
pub proof fn lemma_image_of_subrange(words: Seq<u32>, order: ByteOrder, from: int, to: int)
    requires
        0 <= from <= to <= words.len(),
    ensures
        spec_image(words, order).subrange(4 * from, 4 * to) == spec_image(
            words.subrange(from, to),
            order,
        ),
{
    let whole = spec_image(words, order);
    let part = spec_image(words.subrange(from, to), order);
    assert forall|i: int| 0 <= i < 4 * (to - from) implies whole[4 * from + i] == part[i] by {
        assert((4 * from + i) / 4 == from + i / 4);
        assert((4 * from + i) % 4 == i % 4);
        assert(words.subrange(from, to)[i / 4] == words[from + i / 4]);
    }
    assert(whole.subrange(4 * from, 4 * to) =~= part);
}

/// A memory image holds four bytes for each word, whatever the byte order.
pub proof fn lemma_image_len(bytes: Seq<u8>, words: Seq<u32>)
    requires
        is_image_of(bytes, words),
    ensures
        bytes.len() == 4 * words.len(),
{
}

/// In a memory image, the four bytes of word `k` lie at offset `4 * k`, and
/// they are the bytes of that word in one order or the other.
pub proof fn lemma_image_word(bytes: Seq<u8>, words: Seq<u32>, k: int)
    requires
        is_image_of(bytes, words),
        0 <= k < words.len(),
    ensures
        bytes.subrange(4 * k, 4 * k + 4) == seq![
            spec_byte_of(words[k], 0),
            spec_byte_of(words[k], 1),
            spec_byte_of(words[k], 2),
            spec_byte_of(words[k], 3),
        ] || bytes.subrange(4 * k, 4 * k + 4) == seq![
            spec_byte_of(words[k], 3),
            spec_byte_of(words[k], 2),
            spec_byte_of(words[k], 1),
            spec_byte_of(words[k], 0),
        ],
{
    let part = bytes.subrange(4 * k, 4 * k + 4);
    if bytes == spec_image(words, ByteOrder::LittleEndian) {
        assert(part =~= seq![
            spec_byte_of(words[k], 0),
            spec_byte_of(words[k], 1),
            spec_byte_of(words[k], 2),
            spec_byte_of(words[k], 3),
        ]);
    } else {
        assert(part =~= seq![
            spec_byte_of(words[k], 3),
            spec_byte_of(words[k], 2),
            spec_byte_of(words[k], 1),
            spec_byte_of(words[k], 0),
        ]);
    }
}

} // verus!
