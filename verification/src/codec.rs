//! The packed layouts of the primitives.
//!
//! Three layouts are fixed here, all made of little-endian 32-bit words:
//!
//! * the *record*, 64 bytes without padding, in which a point-cloud file
//!   stores one splat: position (3 words), two unused words kept for a
//!   surface normal that is never filled in, colour coefficients (3),
//!   opacity (1), scale (3), rotation (4);
//! * the *device splat*, 64 bytes in four 16-byte groups, in which splats
//!   are handed to the accelerator: position and opacity, scale and one
//!   padding word, rotation, colour coefficients and one padding word;
//! * the *device surfel*, 48 bytes in three 16-byte groups, in which the
//!   accelerator hands results back and a renderer reads vertices:
//!   position, first attribute, second attribute, each followed by one
//!   padding word.
//!
//! Padding is written as zero and never read.

use vstd::prelude::*;
use vstd::slice::slice_subrange;
use crate::splat::{GaussianSplat, Surfel};
use crate::word::{
    byte_groups, group_word, lemma_group_words, lemma_word_at_words_bytes, push_words, read_group,
    word_at, words_bytes,
};

verus! {

/// Size of one file record.
pub const RECORD_BYTES: usize = 64;

/// Size of one splat in accelerator memory.
pub const SPLAT_BYTES: usize = 64;

/// Size of one surfel in accelerator memory, and the stride of the vertex
/// stream a renderer reads from it.
pub const SURFEL_BYTES: usize = 48;

/// Offset of the position attribute within a surfel.
pub const SURFEL_POSITION_OFFSET: usize = 0;

/// Offset of the first attribute (colour, or normal) within a surfel.
pub const SURFEL_COLOR_OFFSET: usize = 16;

/// Offset of the second attribute (normal, or first covariance row) within
/// a surfel.
pub const SURFEL_NORMAL_OFFSET: usize = 32;

/// The splat stored as a file record at byte offset `at`.
pub open spec fn record_at(bytes: Seq<u8>, at: int) -> GaussianSplat
    recommends
        0 <= at,
        at + 64 <= bytes.len(),
{
    GaussianSplat {
        pos: [word_at(bytes, at), word_at(bytes, at + 4), word_at(bytes, at + 8)],
        opacity: word_at(bytes, at + 32),
        scale: [word_at(bytes, at + 36), word_at(bytes, at + 40), word_at(bytes, at + 44)],
        rot: [
            word_at(bytes, at + 48),
            word_at(bytes, at + 52),
            word_at(bytes, at + 56),
            word_at(bytes, at + 60),
        ],
        sh_dc: [word_at(bytes, at + 20), word_at(bytes, at + 24), word_at(bytes, at + 28)],
    }
}

/// The splats stored in a record body: one per whole record, in order.
/// Bytes after the last whole record belong to no splat.
pub open spec fn records(body: Seq<u8>) -> Seq<GaussianSplat> {
    Seq::new(body.len() / 64, |i: int| record_at(body, 64 * i))
}

/// The sixteen words of a splat in accelerator memory.
pub open spec fn splat_words(s: GaussianSplat) -> Seq<u32> {
    seq![
        s.pos[0], s.pos[1], s.pos[2], s.opacity,
        s.scale[0], s.scale[1], s.scale[2], 0u32,
        s.rot[0], s.rot[1], s.rot[2], s.rot[3],
        s.sh_dc[0], s.sh_dc[1], s.sh_dc[2], 0u32,
    ]
}

/// The 64 bytes of a splat in accelerator memory.
pub open spec fn splat_bytes(s: GaussianSplat) -> Seq<u8> {
    words_bytes(splat_words(s))
}

/// The bytes of an array of splats in accelerator memory.
pub open spec fn splats_bytes(splats: Seq<GaussianSplat>) -> Seq<u8> {
    Seq::new(64 * splats.len(), |k: int| splat_bytes(splats[k / 64])[k % 64])
}

/// The splat stored in accelerator layout at byte offset `at`.
pub open spec fn splat_at(bytes: Seq<u8>, at: int) -> GaussianSplat
    recommends
        0 <= at,
        at + 64 <= bytes.len(),
{
    GaussianSplat {
        pos: [word_at(bytes, at), word_at(bytes, at + 4), word_at(bytes, at + 8)],
        opacity: word_at(bytes, at + 12),
        scale: [word_at(bytes, at + 16), word_at(bytes, at + 20), word_at(bytes, at + 24)],
        rot: [
            word_at(bytes, at + 32),
            word_at(bytes, at + 36),
            word_at(bytes, at + 40),
            word_at(bytes, at + 44),
        ],
        sh_dc: [word_at(bytes, at + 48), word_at(bytes, at + 52), word_at(bytes, at + 56)],
    }
}

/// The twelve words of a surfel in accelerator memory.
pub open spec fn surfel_words(s: Surfel) -> Seq<u32> {
    seq![
        s.pos[0], s.pos[1], s.pos[2], 0u32,
        s.color[0], s.color[1], s.color[2], 0u32,
        s.normal[0], s.normal[1], s.normal[2], 0u32,
    ]
}

/// The 48 bytes of a surfel in accelerator memory.
pub open spec fn surfel_bytes(s: Surfel) -> Seq<u8> {
    words_bytes(surfel_words(s))
}

/// The bytes of an array of surfels in accelerator memory.
pub open spec fn surfels_bytes(surfels: Seq<Surfel>) -> Seq<u8> {
    Seq::new(48 * surfels.len(), |k: int| surfel_bytes(surfels[k / 48])[k % 48])
}

/// The surfel stored at byte offset `at`.
pub open spec fn surfel_at(bytes: Seq<u8>, at: int) -> Surfel
    recommends
        0 <= at,
        at + 48 <= bytes.len(),
{
    Surfel {
        pos: [word_at(bytes, at), word_at(bytes, at + 4), word_at(bytes, at + 8)],
        color: [word_at(bytes, at + 16), word_at(bytes, at + 20), word_at(bytes, at + 24)],
        normal: [word_at(bytes, at + 32), word_at(bytes, at + 36), word_at(bytes, at + 40)],
    }
}

/// The surfels stored in a buffer: one per whole 48 bytes, in order.
pub open spec fn surfels(bytes: Seq<u8>) -> Seq<Surfel> {
    Seq::new(bytes.len() / 48, |i: int| surfel_at(bytes, 48 * i))
}

/// Reads record `i` of a body from the body's groups of four bytes.
fn record_from(groups: &[[u8; 4]], i: usize, Ghost(body): Ghost<Seq<u8>>) -> (s: GaussianSplat)
    requires
        16 * i + 16 <= groups.len(),
        forall|j: int|
            0 <= j < groups.len() ==> group_word(#[trigger] groups@[j]) == word_at(body, 4 * j),
    ensures
        s == record_at(body, 64 * i),
{
    let at: usize = 16 * i;
    GaussianSplat {
        pos: [read_group(&groups[at]), read_group(&groups[at + 1]), read_group(&groups[at + 2])],
        opacity: read_group(&groups[at + 8]),
        scale: [
            read_group(&groups[at + 9]),
            read_group(&groups[at + 10]),
            read_group(&groups[at + 11]),
        ],
        rot: [
            read_group(&groups[at + 12]),
            read_group(&groups[at + 13]),
            read_group(&groups[at + 14]),
            read_group(&groups[at + 15]),
        ],
        sh_dc: [
            read_group(&groups[at + 5]),
            read_group(&groups[at + 6]),
            read_group(&groups[at + 7]),
        ],
    }
}

/// Reads surfel `i` of a buffer from the buffer's groups of four bytes.
fn surfel_from(groups: &[[u8; 4]], i: usize, Ghost(bytes): Ghost<Seq<u8>>) -> (s: Surfel)
    requires
        12 * i + 12 <= groups.len(),
        forall|j: int|
            0 <= j < groups.len() ==> group_word(#[trigger] groups@[j]) == word_at(bytes, 4 * j),
    ensures
        s == surfel_at(bytes, 48 * i),
{
    let at: usize = 12 * i;
    Surfel {
        pos: [read_group(&groups[at]), read_group(&groups[at + 1]), read_group(&groups[at + 2])],
        color: [
            read_group(&groups[at + 4]),
            read_group(&groups[at + 5]),
            read_group(&groups[at + 6]),
        ],
        normal: [
            read_group(&groups[at + 8]),
            read_group(&groups[at + 9]),
            read_group(&groups[at + 10]),
        ],
    }
}

/// Decodes a record body into splats.  A body of `L` bytes holds
/// `floor(L / 64)` splats; a trailing partial record is dropped.
pub fn decode_records(body: &[u8]) -> (out: Vec<GaussianSplat>)
    ensures
        out@ == records(body@),
        out.len() == body.len() / 64,
{
    let n: usize = body.len() / RECORD_BYTES;
    let whole = slice_subrange(body, 0, RECORD_BYTES * n);
    let groups = byte_groups(whole);
    proof {
        lemma_group_words(whole@, groups@);
    }
    let mut out: Vec<GaussianSplat> = Vec::new();
    let mut i: usize = 0;
    while i < n
        invariant
            n == body.len() / 64,
            whole@ == body@.subrange(0, 64 * n),
            groups.len() == 16 * n,
            forall|j: int|
                0 <= j < groups.len() ==> group_word(#[trigger] groups@[j]) == word_at(
                    whole@,
                    4 * j,
                ),
            i <= n,
            out.len() == i,
            forall|k: int| 0 <= k < i ==> out[k] == record_at(body@, 64 * k),
        decreases n - i,
    {
        let splat = record_from(groups, i, Ghost(whole@));
        assert(record_at(whole@, 64 * i) == record_at(body@, 64 * i));
        out.push(splat);
        i += 1;
    }
    assert(out@ =~= records(body@));
    out
}

/// Decodes a buffer read back from the accelerator into surfels: one per
/// whole 48 bytes, in order.
pub fn decode_surfels(bytes: &[u8]) -> (out: Vec<Surfel>)
    ensures
        out@ == surfels(bytes@),
        out.len() == bytes.len() / 48,
{
    let n: usize = bytes.len() / SURFEL_BYTES;
    let whole = slice_subrange(bytes, 0, SURFEL_BYTES * n);
    let groups = byte_groups(whole);
    proof {
        lemma_group_words(whole@, groups@);
    }
    let mut out: Vec<Surfel> = Vec::new();
    let mut i: usize = 0;
    while i < n
        invariant
            n == bytes.len() / 48,
            whole@ == bytes@.subrange(0, 48 * n),
            groups.len() == 12 * n,
            forall|j: int|
                0 <= j < groups.len() ==> group_word(#[trigger] groups@[j]) == word_at(
                    whole@,
                    4 * j,
                ),
            i <= n,
            out.len() == i,
            forall|k: int| 0 <= k < i ==> out[k] == surfel_at(bytes@, 48 * k),
        decreases n - i,
    {
        let surfel = surfel_from(groups, i, Ghost(whole@));
        assert(surfel_at(whole@, 48 * i) == surfel_at(bytes@, 48 * i));
        out.push(surfel);
        i += 1;
    }
    assert(out@ =~= surfels(bytes@));
    out
}

/// Appends one splat in accelerator layout to `out`.
pub fn push_splat(out: &mut Vec<u8>, s: &GaussianSplat)
    ensures
        final(out)@ == old(out)@ + splat_bytes(*s),
{
    let words: [u32; 16] = [
        s.pos[0], s.pos[1], s.pos[2], s.opacity,
        s.scale[0], s.scale[1], s.scale[2], 0u32,
        s.rot[0], s.rot[1], s.rot[2], s.rot[3],
        s.sh_dc[0], s.sh_dc[1], s.sh_dc[2], 0u32,
    ];
    assert(words@ =~= splat_words(*s));
    push_words(out, words.as_slice());
}

/// Appends one surfel in accelerator layout to `out`.
pub fn push_surfel(out: &mut Vec<u8>, s: &Surfel)
    ensures
        final(out)@ == old(out)@ + surfel_bytes(*s),
{
    let words: [u32; 12] = [
        s.pos[0], s.pos[1], s.pos[2], 0u32,
        s.color[0], s.color[1], s.color[2], 0u32,
        s.normal[0], s.normal[1], s.normal[2], 0u32,
    ];
    assert(words@ =~= surfel_words(*s));
    push_words(out, words.as_slice());
}

/// Lays an array of splats out for the accelerator: 64 bytes each, in
/// order, padding zeroed.
pub fn encode_splats(splats: &[GaussianSplat]) -> (out: Vec<u8>)
    ensures
        out@ == splats_bytes(splats@),
        out.len() == 64 * splats.len(),
{
    let mut out: Vec<u8> = Vec::new();
    let mut i: usize = 0;
    while i < splats.len()
        invariant
            i <= splats.len(),
            out@ == splats_bytes(splats@.take(i as int)),
        decreases splats.len() - i,
    {
        let ghost before = out@;
        push_splat(&mut out, &splats[i]);
        assert(out@ =~= splats_bytes(splats@.take(i + 1))) by {
            let grown = splats_bytes(splats@.take(i + 1));
            assert forall|k: int| 0 <= k < grown.len() implies grown[k] == (before + splat_bytes(
                splats[i as int],
            ))[k] by {
                if k < 64 * i {
                    assert(splats@.take(i + 1)[k / 64] == splats@.take(i as int)[k / 64]);
                } else {
                    assert(k / 64 == i);
                }
            }
        }
        i += 1;
    }
    assert(splats@.take(splats.len() as int) =~= splats@);
    out
}

/// Lays an array of surfels out as a vertex stream: 48 bytes each, in
/// order, padding zeroed.
pub fn encode_surfels(surfels: &[Surfel]) -> (out: Vec<u8>)
    ensures
        out@ == surfels_bytes(surfels@),
        out.len() == 48 * surfels.len(),
{
    let mut out: Vec<u8> = Vec::new();
    let mut i: usize = 0;
    while i < surfels.len()
        invariant
            i <= surfels.len(),
            out@ == surfels_bytes(surfels@.take(i as int)),
        decreases surfels.len() - i,
    {
        let ghost before = out@;
        push_surfel(&mut out, &surfels[i]);
        assert(out@ =~= surfels_bytes(surfels@.take(i + 1))) by {
            let grown = surfels_bytes(surfels@.take(i + 1));
            assert forall|k: int| 0 <= k < grown.len() implies grown[k] == (before + surfel_bytes(
                surfels[i as int],
            ))[k] by {
                if k < 48 * i {
                    assert(surfels@.take(i + 1)[k / 48] == surfels@.take(i as int)[k / 48]);
                } else {
                    assert(k / 48 == i);
                }
            }
        }
        i += 1;
    }
    assert(surfels@.take(surfels.len() as int) =~= surfels@);
    out
}

/// Word `j` of splat `i` in an accelerator buffer reads back as that word.
proof fn lemma_splat_word(splats: Seq<GaussianSplat>, i: int, j: int)
    requires
        0 <= i < splats.len(),
        0 <= j < 16,
    ensures
        word_at(splats_bytes(splats), 64 * i + 4 * j) == splat_words(splats[i])[j],
{
    let bytes = splats_bytes(splats);
    let words = splat_words(splats[i]);
    let base = 64 * i + 4 * j;
    assert(bytes[base] == words_bytes(words)[4 * j]);
    assert(bytes[base + 1] == words_bytes(words)[4 * j + 1]);
    assert(bytes[base + 2] == words_bytes(words)[4 * j + 2]);
    assert(bytes[base + 3] == words_bytes(words)[4 * j + 3]);
    lemma_word_at_words_bytes(words, j);
}

/// Word `j` of surfel `i` in a vertex stream reads back as that word.
proof fn lemma_surfel_word(list: Seq<Surfel>, i: int, j: int)
    requires
        0 <= i < list.len(),
        0 <= j < 12,
    ensures
        word_at(surfels_bytes(list), 48 * i + 4 * j) == surfel_words(list[i])[j],
{
    let bytes = surfels_bytes(list);
    let words = surfel_words(list[i]);
    let base = 48 * i + 4 * j;
    assert(bytes[base] == words_bytes(words)[4 * j]);
    assert(bytes[base + 1] == words_bytes(words)[4 * j + 1]);
    assert(bytes[base + 2] == words_bytes(words)[4 * j + 2]);
    assert(bytes[base + 3] == words_bytes(words)[4 * j + 3]);
    lemma_word_at_words_bytes(words, j);
}

/// A splat laid out for the accelerator reads back unchanged, wherever
/// in the array it stands.
pub proof fn lemma_splat_round_trip(splats: Seq<GaussianSplat>, i: int)
    requires
        0 <= i < splats.len(),
    ensures
        splats_bytes(splats).len() == 64 * splats.len(),
        splat_at(splats_bytes(splats), 64 * i) == splats[i],
{
    let s = splats[i];
    let bytes = splats_bytes(splats);
    let at = 64 * i;
    assert(word_at(bytes, at) == s.pos[0]) by {
        lemma_splat_word(splats, i, 0);
    }
    assert(word_at(bytes, at + 4) == s.pos[1]) by {
        lemma_splat_word(splats, i, 1);
    }
    assert(word_at(bytes, at + 8) == s.pos[2]) by {
        lemma_splat_word(splats, i, 2);
    }
    assert(word_at(bytes, at + 12) == s.opacity) by {
        lemma_splat_word(splats, i, 3);
    }
    assert(word_at(bytes, at + 16) == s.scale[0]) by {
        lemma_splat_word(splats, i, 4);
    }
    assert(word_at(bytes, at + 20) == s.scale[1]) by {
        lemma_splat_word(splats, i, 5);
    }
    assert(word_at(bytes, at + 24) == s.scale[2]) by {
        lemma_splat_word(splats, i, 6);
    }
    assert(word_at(bytes, at + 32) == s.rot[0]) by {
        lemma_splat_word(splats, i, 8);
    }
    assert(word_at(bytes, at + 36) == s.rot[1]) by {
        lemma_splat_word(splats, i, 9);
    }
    assert(word_at(bytes, at + 40) == s.rot[2]) by {
        lemma_splat_word(splats, i, 10);
    }
    assert(word_at(bytes, at + 44) == s.rot[3]) by {
        lemma_splat_word(splats, i, 11);
    }
    assert(word_at(bytes, at + 48) == s.sh_dc[0]) by {
        lemma_splat_word(splats, i, 12);
    }
    assert(word_at(bytes, at + 52) == s.sh_dc[1]) by {
        lemma_splat_word(splats, i, 13);
    }
    assert(word_at(bytes, at + 56) == s.sh_dc[2]) by {
        lemma_splat_word(splats, i, 14);
    }
    lemma_same_splat(splat_at(bytes, at), s);
}

/// Two splats with the same components are the same splat.
proof fn lemma_same_splat(a: GaussianSplat, b: GaussianSplat)
    requires
        a.pos[0] == b.pos[0],
        a.pos[1] == b.pos[1],
        a.pos[2] == b.pos[2],
        a.opacity == b.opacity,
        a.scale[0] == b.scale[0],
        a.scale[1] == b.scale[1],
        a.scale[2] == b.scale[2],
        a.rot[0] == b.rot[0],
        a.rot[1] == b.rot[1],
        a.rot[2] == b.rot[2],
        a.rot[3] == b.rot[3],
        a.sh_dc[0] == b.sh_dc[0],
        a.sh_dc[1] == b.sh_dc[1],
        a.sh_dc[2] == b.sh_dc[2],
    ensures
        a == b,
{
    assert(a.pos =~= b.pos);
    assert(a.scale =~= b.scale);
    assert(a.rot =~= b.rot);
    assert(a.sh_dc =~= b.sh_dc);
}

/// Two surfels with the same components are the same surfel.
proof fn lemma_same_surfel(a: Surfel, b: Surfel)
    requires
        a.pos[0] == b.pos[0],
        a.pos[1] == b.pos[1],
        a.pos[2] == b.pos[2],
        a.color[0] == b.color[0],
        a.color[1] == b.color[1],
        a.color[2] == b.color[2],
        a.normal[0] == b.normal[0],
        a.normal[1] == b.normal[1],
        a.normal[2] == b.normal[2],
    ensures
        a == b,
{
    assert(a.pos =~= b.pos);
    assert(a.color =~= b.color);
    assert(a.normal =~= b.normal);
}

/// A surfel laid out in a vertex stream reads back unchanged, wherever in
/// the stream it stands.
pub proof fn lemma_surfel_round_trip(list: Seq<Surfel>, i: int)
    requires
        0 <= i < list.len(),
    ensures
        surfels_bytes(list).len() == 48 * list.len(),
        surfel_at(surfels_bytes(list), 48 * i) == list[i],
{
    let s = list[i];
    let bytes = surfels_bytes(list);
    let at = 48 * i;
    assert(word_at(bytes, at) == s.pos[0]) by {
        lemma_surfel_word(list, i, 0);
    }
    assert(word_at(bytes, at + 4) == s.pos[1]) by {
        lemma_surfel_word(list, i, 1);
    }
    assert(word_at(bytes, at + 8) == s.pos[2]) by {
        lemma_surfel_word(list, i, 2);
    }
    assert(word_at(bytes, at + 16) == s.color[0]) by {
        lemma_surfel_word(list, i, 4);
    }
    assert(word_at(bytes, at + 20) == s.color[1]) by {
        lemma_surfel_word(list, i, 5);
    }
    assert(word_at(bytes, at + 24) == s.color[2]) by {
        lemma_surfel_word(list, i, 6);
    }
    assert(word_at(bytes, at + 32) == s.normal[0]) by {
        lemma_surfel_word(list, i, 8);
    }
    assert(word_at(bytes, at + 36) == s.normal[1]) by {
        lemma_surfel_word(list, i, 9);
    }
    assert(word_at(bytes, at + 40) == s.normal[2]) by {
        lemma_surfel_word(list, i, 10);
    }
    lemma_same_surfel(surfel_at(bytes, at), s);
}

/// Surfels laid out as a vertex stream decode to the same surfels.
pub proof fn lemma_surfels_round_trip(list: Seq<Surfel>)
    ensures
        surfels(surfels_bytes(list)) == list,
{
    assert forall|i: int| 0 <= i < list.len() implies surfel_at(surfels_bytes(list), 48 * i)
        == list[i] by {
        lemma_surfel_round_trip(list, i);
    }
    assert(surfels(surfels_bytes(list)) =~= list);
}

} // verus!
