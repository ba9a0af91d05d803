//! Little-endian 32-bit words.
//!
//! Every numeric field of every packed layout in this crate is one 32-bit
//! word stored least significant byte first.  A word that stands for a
//! real number is the IEEE-754 binary32 bit pattern of that number; this
//! module moves such patterns between bytes and `u32` without ever
//! interpreting them.

use vstd::prelude::*;

verus! {

/// The word whose four bytes, least significant first, are `b0 .. b3`.
pub open spec fn word_of(b0: u8, b1: u8, b2: u8, b3: u8) -> u32 {
    (b0 as int + 256 * (b1 as int) + 65536 * (b2 as int) + 16777216 * (b3 as int)) as u32
}

/// The word stored in `bytes` at byte offset `at`.
pub open spec fn word_at(bytes: Seq<u8>, at: int) -> u32
    recommends
        0 <= at,
        at + 4 <= bytes.len(),
{
    word_of(bytes[at], bytes[at + 1], bytes[at + 2], bytes[at + 3])
}

/// The word held by a group of four bytes.
pub open spec fn group_word(group: [u8; 4]) -> u32 {
    word_of(group[0], group[1], group[2], group[3])
}

/// Byte `k` (0 is the least significant) of `w`.
pub open spec fn word_byte(w: u32, k: int) -> u8
    recommends
        0 <= k < 4,
{
    if k == 0 {
        (w as int % 256) as u8
    } else if k == 1 {
        (w as int / 256 % 256) as u8
    } else if k == 2 {
        (w as int / 65536 % 256) as u8
    } else {
        (w as int / 16777216 % 256) as u8
    }
}

/// The four bytes of `w`, least significant first.
pub open spec fn word_bytes(w: u32) -> Seq<u8> {
    seq![word_byte(w, 0), word_byte(w, 1), word_byte(w, 2), word_byte(w, 3)]
}

/// The bytes of a sequence of words laid out one after the other.
pub open spec fn words_bytes(words: Seq<u32>) -> Seq<u8> {
    Seq::new(4 * words.len(), |k: int| word_byte(words[k / 4], k % 4))
}

/// Reading back the bytes of a word gives the word.
pub proof fn lemma_word_of_bytes(w: u32)
    ensures
        word_of(word_byte(w, 0), word_byte(w, 1), word_byte(w, 2), word_byte(w, 3)) == w,
        word_at(word_bytes(w), 0) == w,
{
}

/// Splitting the word made of four bytes gives those bytes back.
pub proof fn lemma_bytes_of_word(b0: u8, b1: u8, b2: u8, b3: u8)
    ensures
        word_byte(word_of(b0, b1, b2, b3), 0) == b0,
        word_byte(word_of(b0, b1, b2, b3), 1) == b1,
        word_byte(word_of(b0, b1, b2, b3), 2) == b2,
        word_byte(word_of(b0, b1, b2, b3), 3) == b3,
        word_bytes(word_of(b0, b1, b2, b3)) =~= seq![b0, b1, b2, b3],
{
}

/// Word `j` of a laid-out sequence of words reads back as `words[j]`.
pub proof fn lemma_word_at_words_bytes(words: Seq<u32>, j: int)
    requires
        0 <= j < words.len(),
    ensures
        word_at(words_bytes(words), 4 * j) == words[j],
{
    let bytes = words_bytes(words);
    assert(bytes[4 * j] == word_byte(words[j], 0));
    assert(bytes[4 * j + 1] == word_byte(words[j], 1));
    assert(bytes[4 * j + 2] == word_byte(words[j], 2));
    assert(bytes[4 * j + 3] == word_byte(words[j], 3));
    lemma_word_of_bytes(words[j]);
}

/// Views `bytes` as its consecutive groups of four, through
/// `bytemuck::cast_slice`.
///
/// Taken on trust from that function: there is one group for every four
/// bytes, and group `i` holds bytes `4 * i` to `4 * i + 3` in their order.
/// The cast panics where the bytes do not divide into whole groups, which
/// the precondition rules out; it cannot fail on alignment, a group of
/// bytes being aligned as a byte is.
#[verifier::external_body]
pub(crate) fn byte_groups(bytes: &[u8]) -> (groups: &[[u8; 4]])
    requires
        bytes@.len() % 4 == 0,
    ensures
        groups@.len() == bytes@.len() / 4,
        forall|i: int, k: int|
            0 <= i < groups@.len() && 0 <= k < 4 ==> #[trigger] groups@[i]@[k] == bytes@[4 * i
                + k],
{
    bytemuck::cast_slice(bytes)
}

/// Where `groups` are the groups of four of `bytes`, group `i` holds the
/// word stored at byte offset `4 * i`.
pub(crate) proof fn lemma_group_words(bytes: Seq<u8>, groups: Seq<[u8; 4]>)
    requires
        groups.len() == bytes.len() / 4,
        forall|i: int, k: int|
            0 <= i < groups.len() && 0 <= k < 4 ==> #[trigger] groups[i]@[k] == bytes[4 * i + k],
    ensures
        forall|i: int|
            0 <= i < groups.len() ==> group_word(#[trigger] groups[i]) == word_at(bytes, 4 * i),
{
    assert forall|i: int| 0 <= i < groups.len() implies group_word(#[trigger] groups[i])
        == word_at(bytes, 4 * i) by {
        assert(groups[i]@[0] == bytes[4 * i + 0]);
        assert(groups[i]@[1] == bytes[4 * i + 1]);
        assert(groups[i]@[2] == bytes[4 * i + 2]);
        assert(groups[i]@[3] == bytes[4 * i + 3]);
    }
}

/// Reads the word held by a group of four bytes.
pub fn read_group(group: &[u8; 4]) -> (w: u32)
    ensures
        w == group_word(*group),
{
    let b0: u32 = group[0] as u32;
    let b1: u32 = group[1] as u32;
    let b2: u32 = group[2] as u32;
    let b3: u32 = group[3] as u32;
    b0 + 256 * b1 + 65536 * b2 + 16777216 * b3
}

/// Reads the word stored at byte offset `at`.
pub fn read_word(bytes: &[u8], at: usize) -> (w: u32)
    requires
        at + 4 <= bytes.len(),
    ensures
        w == word_at(bytes@, at as int),
{
    let b0: u32 = bytes[at] as u32;
    let b1: u32 = bytes[at + 1] as u32;
    let b2: u32 = bytes[at + 2] as u32;
    let b3: u32 = bytes[at + 3] as u32;
    b0 + 256 * b1 + 65536 * b2 + 16777216 * b3
}

/// Appends the four bytes of `w` to `out`.
pub fn push_word(out: &mut Vec<u8>, w: u32)
    ensures
        final(out)@ == old(out)@ + word_bytes(w),
{
    out.push((w % 256) as u8);
    out.push((w / 256 % 256) as u8);
    out.push((w / 65536 % 256) as u8);
    out.push((w / 16777216 % 256) as u8);
    assert(out@ =~= old(out)@ + word_bytes(w));
}

/// Appends the bytes of `words`, in order, to `out`.
pub fn push_words(out: &mut Vec<u8>, words: &[u32])
    ensures
        final(out)@ == old(out)@ + words_bytes(words@),
{
    let mut j: usize = 0;
    while j < words.len()
        invariant
            j <= words.len(),
            out@ == old(out)@ + words_bytes(words@.take(j as int)),
        decreases words.len() - j,
    {
        push_word(out, words[j]);
        assert(out@ =~= old(out)@ + words_bytes(words@.take(j + 1))) by {
            let grown = words_bytes(words@.take(j + 1));
            let kept = words_bytes(words@.take(j as int));
            assert forall|k: int| 0 <= k < grown.len() implies grown[k] == (kept + word_bytes(
                words[j as int],
            ))[k] by {
                if k < 4 * j {
                    assert(words@.take(j + 1)[k / 4] == words@.take(j as int)[k / 4]);
                } else {
                    assert(k / 4 == j);
                }
            }
            assert(grown =~= kept + word_bytes(words[j as int]));
        }
        j += 1;
    }
    assert(words@.take(words.len() as int) =~= words@);
}

} // verus!
