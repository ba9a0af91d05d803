//! Framing of a point-cloud file: a textual header that ends with the token
//! `end_header`, any number of carriage-return and line-feed bytes, then a
//! flat body of 64-byte records with no length prefix.

use vstd::prelude::*;
use vstd::slice::slice_subrange;
use crate::codec::{decode_records, records};
use crate::error::FormatError;
use crate::splat::GaussianSplat;

verus! {

/// Length of the token that ends the header.
pub const SENTINEL_BYTES: usize = 10;

/// The token that ends the header: the ASCII bytes of `end_header`.
pub open spec fn sentinel() -> Seq<u8> {
    seq![101u8, 110u8, 100u8, 95u8, 104u8, 101u8, 97u8, 100u8, 101u8, 114u8]
}

/// The token stands in `bytes` at offset `i`.
pub open spec fn sentinel_at(bytes: Seq<u8>, i: int) -> bool {
    &&& 0 <= i
    &&& i + 10 <= bytes.len()
    &&& bytes.subrange(i, i + 10) == sentinel()
}

/// The token occurs somewhere in `bytes`.
pub open spec fn has_header(bytes: Seq<u8>) -> bool {
    exists|i: int| sentinel_at(bytes, i)
}

/// `end` is the offset just past the first occurrence of the token.
pub open spec fn is_header_end(bytes: Seq<u8>, end: int) -> bool {
    &&& sentinel_at(bytes, end - 10)
    &&& forall|j: int| 0 <= j < end - 10 ==> !sentinel_at(bytes, j)
}

/// The offset just past the first occurrence of the token, where there is
/// one.
pub open spec fn header_end(bytes: Seq<u8>) -> int
    recommends
        has_header(bytes),
{
    choose|end: int| is_header_end(bytes, end)
}

/// A carriage return or a line feed.
pub open spec fn is_line_ending(b: u8) -> bool {
    b == 13 || b == 10
}

/// `start` is where the line endings that begin at `from` stop: every byte
/// in between is a line ending, and the byte at `start`, if there is one,
/// is not.
pub open spec fn is_body_start(bytes: Seq<u8>, from: int, start: int) -> bool {
    &&& from <= start <= bytes.len()
    &&& forall|k: int| from <= k < start ==> is_line_ending(#[trigger] bytes[k])
    &&& (start < bytes.len() ==> !is_line_ending(bytes[start]))
}

/// The offset of the first body byte: past the header's end and the line
/// endings that follow it.
pub open spec fn body_start(bytes: Seq<u8>) -> int
    recommends
        has_header(bytes),
{
    choose|start: int| is_body_start(bytes, header_end(bytes), start)
}

/// The record body of a file.
pub open spec fn body(bytes: Seq<u8>) -> Seq<u8>
    recommends
        has_header(bytes),
{
    bytes.subrange(body_start(bytes), bytes.len() as int)
}

/// There is at most one first occurrence.
pub proof fn lemma_header_end_unique(bytes: Seq<u8>, a: int, b: int)
    requires
        is_header_end(bytes, a),
        is_header_end(bytes, b),
    ensures
        a == b,
{
    if a < b {
        assert(sentinel_at(bytes, a - 10));
    } else if b < a {
        assert(sentinel_at(bytes, b - 10));
    }
}

/// The line endings that begin at `from` stop in exactly one place.
pub proof fn lemma_body_start_unique(bytes: Seq<u8>, from: int, a: int, b: int)
    requires
        is_body_start(bytes, from, a),
        is_body_start(bytes, from, b),
    ensures
        a == b,
{
    if a < b {
        assert(is_line_ending(bytes[a]));
    } else if b < a {
        assert(is_line_ending(bytes[b]));
    }
}

/// Tells whether the token stands at offset `i`.
fn token_at(bytes: &[u8], i: usize) -> (found: bool)
    requires
        i + 10 <= bytes.len(),
    ensures
        found == sentinel_at(bytes@, i as int),
{
    let found = bytes[i] == 101 && bytes[i + 1] == 110 && bytes[i + 2] == 100 && bytes[i + 3] == 95
        && bytes[i + 4] == 104 && bytes[i + 5] == 101 && bytes[i + 6] == 97 && bytes[i + 7] == 100
        && bytes[i + 8] == 101 && bytes[i + 9] == 114;
    proof {
        let window = bytes@.subrange(i as int, i + 10);
        if found {
            assert(window =~= sentinel());
        } else {
            if window == sentinel() {
                assert(forall|k: int| 0 <= k < 10 ==> bytes@[i + k] == window[k]);
                assert(window[0] == 101 && window[1] == 110 && window[2] == 100 && window[3] == 95
                    && window[4] == 104 && window[5] == 101 && window[6] == 97 && window[7] == 100
                    && window[8] == 101 && window[9] == 114);
                assert(bytes@[i + 0] == window[0]);
                assert(bytes@[i + 1] == window[1]);
                assert(bytes@[i + 2] == window[2]);
                assert(bytes@[i + 3] == window[3]);
                assert(bytes@[i + 4] == window[4]);
                assert(bytes@[i + 5] == window[5]);
                assert(bytes@[i + 6] == window[6]);
                assert(bytes@[i + 7] == window[7]);
                assert(bytes@[i + 8] == window[8]);
                assert(bytes@[i + 9] == window[9]);
            }
        }
    }
    found
}

/// Finds where the header ends: the offset just past the first occurrence
/// of the token.  The whole input is searched.
pub fn find_header_end(bytes: &[u8]) -> (found: Option<usize>)
    ensures
        found is Some <==> has_header(bytes@),
        found matches Some(end) ==> is_header_end(bytes@, end as int) && end == header_end(
            bytes@,
        ),
{
    if bytes.len() < SENTINEL_BYTES {
        assert(forall|j: int| !sentinel_at(bytes@, j));
        return None;
    }
    let last: usize = bytes.len() - SENTINEL_BYTES;
    let mut i: usize = 0;
    while i <= last
        invariant
            last + 10 == bytes.len(),
            i <= last + 1,
            forall|j: int| 0 <= j < i ==> !sentinel_at(bytes@, j),
        decreases last + 1 - i,
    {
        if token_at(bytes, i) {
            proof {
                let end = i + 10;
                assert(is_header_end(bytes@, end));
                assert(has_header(bytes@));
                lemma_header_end_unique(bytes@, end, header_end(bytes@));
            }
            return Some(i + SENTINEL_BYTES);
        }
        i += 1;
    }
    assert(forall|j: int| !sentinel_at(bytes@, j));
    None
}

/// Skips the carriage returns and line feeds that begin at `from`.
pub fn skip_line_endings(bytes: &[u8], from: usize) -> (start: usize)
    requires
        from <= bytes.len(),
    ensures
        is_body_start(bytes@, from as int, start as int),
{
    let mut at: usize = from;
    while at < bytes.len() && (bytes[at] == 13 || bytes[at] == 10)
        invariant
            from <= at <= bytes.len(),
            forall|k: int| from <= k < at ==> is_line_ending(#[trigger] bytes@[k]),
        decreases bytes.len() - at,
    {
        at += 1;
    }
    at
}

/// Finds the first body byte of a file.
///
/// Fails exactly when the token that ends the header does not occur.
pub fn locate_body(bytes: &[u8]) -> (found: Result<usize, FormatError>)
    ensures
        has_header(bytes@) ==> found == Ok::<usize, FormatError>(body_start(bytes@) as usize)
            && 0 <= body_start(bytes@) <= bytes.len(),
        !has_header(bytes@) ==> found == Err::<usize, FormatError>(FormatError::MissingHeaderEnd),
{
    match find_header_end(bytes) {
        Some(end) => {
            let start = skip_line_endings(bytes, end);
            proof {
                lemma_body_start_unique(bytes@, end as int, start as int, body_start(bytes@));
            }
            Ok(start)
        },
        None => Err(FormatError::MissingHeaderEnd),
    }
}

/// Decodes a point-cloud file into its splats.
///
/// The header is skipped up to and including its end token and the line
/// endings that follow; the rest is read as 64-byte records, each giving
/// one splat in file order; trailing bytes short of a record are dropped.
/// Fails exactly when the end token does not occur in the input.
pub fn decode(bytes: &[u8]) -> (decoded: Result<Vec<GaussianSplat>, FormatError>)
    ensures
        has_header(bytes@) ==> decoded is Ok && decoded->Ok_0@ == records(body(bytes@))
            && decoded->Ok_0.len() == (bytes.len() - body_start(bytes@)) / 64,
        !has_header(bytes@) ==> decoded == Err::<Vec<GaussianSplat>, FormatError>(
            FormatError::MissingHeaderEnd,
        ),
{
    match locate_body(bytes) {
        Ok(start) => Ok(decode_records(slice_subrange(bytes, start, bytes.len()))),
        Err(e) => Err(e),
    }
}

} // verus!
