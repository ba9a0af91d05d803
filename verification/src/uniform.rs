//! The uniform block a renderer's vertex stage reads.
//!
//! The block is 128 bytes: the sixteen words of the view-projection
//! matrix, the three words of the eye position, one padding word, the
//! display-mode selector at byte 80, and padding up to the end.

use vstd::prelude::*;
use crate::word::{lemma_word_at_words_bytes, push_words, word_at, words_bytes};

verus! {

/// Size of the block.
pub const UNIFORM_BYTES: usize = 128;

/// Offset of the view-projection matrix.
pub const UNIFORM_MATRIX_OFFSET: usize = 0;

/// Offset of the eye position.
pub const UNIFORM_EYE_OFFSET: usize = 64;

/// Offset of the display-mode selector.
pub const UNIFORM_MODE_OFFSET: usize = 80;

/// The thirty-two words of the block.
pub open spec fn uniform_words(view_projection: [u32; 16], eye: [u32; 3], mode: u32) -> Seq<u32> {
    Seq::new(
        32,
        |j: int|
            if j < 16 {
                view_projection[j]
            } else if j < 19 {
                eye[j - 16]
            } else if j == 20 {
                mode
            } else {
                0u32
            },
    )
}

/// The bytes of the block.
pub open spec fn uniform_bytes(view_projection: [u32; 16], eye: [u32; 3], mode: u32) -> Seq<u8> {
    words_bytes(uniform_words(view_projection, eye, mode))
}

/// Word `j` of the block reads back as that word.
proof fn lemma_uniform_word(view_projection: [u32; 16], eye: [u32; 3], mode: u32, j: int)
    requires
        0 <= j < 32,
    ensures
        word_at(uniform_bytes(view_projection, eye, mode), 4 * j) == uniform_words(
            view_projection,
            eye,
            mode,
        )[j],
{
    lemma_word_at_words_bytes(uniform_words(view_projection, eye, mode), j);
}

/// Each field of the block reads back from its offset, and the words
/// between and after the fields are zero.
pub proof fn lemma_uniform_fields(view_projection: [u32; 16], eye: [u32; 3], mode: u32)
    ensures
        uniform_bytes(view_projection, eye, mode).len() == 128,
        forall|j: int|
            0 <= j < 16 ==> word_at(uniform_bytes(view_projection, eye, mode), 4 * j)
                == #[trigger] view_projection[j],
        forall|k: int|
            0 <= k < 3 ==> word_at(uniform_bytes(view_projection, eye, mode), 64 + 4 * k)
                == #[trigger] eye[k],
        word_at(uniform_bytes(view_projection, eye, mode), 76) == 0,
        word_at(uniform_bytes(view_projection, eye, mode), 80) == mode,
        forall|j: int|
            21 <= j < 32 ==> #[trigger] word_at(uniform_bytes(view_projection, eye, mode), 4 * j)
                == 0,
{
    let bytes = uniform_bytes(view_projection, eye, mode);
    assert forall|j: int| 0 <= j < 16 implies word_at(bytes, 4 * j)
        == #[trigger] view_projection[j] by {
        lemma_uniform_word(view_projection, eye, mode, j);
    }
    assert forall|k: int| 0 <= k < 3 implies word_at(bytes, 64 + 4 * k) == #[trigger] eye[k] by {
        lemma_uniform_word(view_projection, eye, mode, 16 + k);
    }
    assert(word_at(bytes, 76) == 0) by {
        lemma_uniform_word(view_projection, eye, mode, 19);
    }
    assert(word_at(bytes, 80) == mode) by {
        lemma_uniform_word(view_projection, eye, mode, 20);
    }
    assert forall|j: int| 21 <= j < 32 implies #[trigger] word_at(bytes, 4 * j) == 0 by {
        lemma_uniform_word(view_projection, eye, mode, j);
    }
}

/// Packs the uniform block.
///
/// `view_projection` is written in the order given, which is the order
/// the vertex stage reads it in.
pub fn uniform_block(view_projection: &[u32; 16], eye: &[u32; 3], mode: u32) -> (out: Vec<u8>)
    ensures
        out@ == uniform_bytes(*view_projection, *eye, mode),
        out.len() == 128,
{
    let words: [u32; 32] = [
        view_projection[0], view_projection[1], view_projection[2], view_projection[3],
        view_projection[4], view_projection[5], view_projection[6], view_projection[7],
        view_projection[8], view_projection[9], view_projection[10], view_projection[11],
        view_projection[12], view_projection[13], view_projection[14], view_projection[15],
        eye[0], eye[1], eye[2], 0u32,
        mode, 0u32, 0u32, 0u32,
        0u32, 0u32, 0u32, 0u32,
        0u32, 0u32, 0u32, 0u32,
    ];
    assert(words@ =~= uniform_words(*view_projection, *eye, mode));
    let mut out: Vec<u8> = Vec::new();
    push_words(&mut out, words.as_slice());
    assert(out@ =~= uniform_bytes(*view_projection, *eye, mode));
    out
}

} // verus!
