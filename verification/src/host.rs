//! Running a kernel on the host, one worker after another.
//!
//! The per-element arithmetic is floating point and is supplied by the
//! caller as a function; what is fixed here is which element each call is
//! made for and where its result goes, the same as on the accelerator.

use vstd::prelude::*;
use crate::splat::{GaussianSplat, Surfel};
use crate::worker::{lemma_split_output, replica_of, source_of};

verus! {

/// The two attributes a geometry kernel derives from one splat.
#[derive(Clone, Copy, Debug, PartialEq, Eq)]
pub struct Attributes {
    /// First attribute: the decoded colour, or the normal.
    pub color: [u32; 3],
    /// Second attribute: the normal, or the first covariance row.
    pub normal: [u32; 3],
}

/// Runs the geometry kernel over `splats`.
///
/// Gives one surfel per splat, in order; each sits where its splat sits
/// and carries the attributes that `derive` gave for that splat.
pub fn compute_surfels<F: Fn(&GaussianSplat) -> Attributes>(
    splats: &[GaussianSplat],
    derive: F,
) -> (out: Vec<Surfel>)
    requires
        forall|i: int| 0 <= i < splats.len() ==> call_requires(derive, (&#[trigger] splats[i],)),
    ensures
        out.len() == splats.len(),
        forall|i: int|
            0 <= i < splats.len() ==> {
                &&& (#[trigger] out[i]).pos == splats[i].pos
                &&& call_ensures(
                    derive,
                    (&splats[i],),
                    (Attributes { color: out[i].color, normal: out[i].normal }),
                )
            },
{
    let mut out: Vec<Surfel> = Vec::new();
    let mut i: usize = 0;
    while i < splats.len()
        invariant
            i <= splats.len(),
            out.len() == i,
            forall|k: int| 0 <= k < splats.len() ==> call_requires(derive, (&#[trigger] splats[k],)),
            forall|k: int|
                0 <= k < i ==> {
                    &&& (#[trigger] out[k]).pos == splats[k].pos
                    &&& call_ensures(
                        derive,
                        (&splats[k],),
                        (Attributes { color: out[k].color, normal: out[k].normal }),
                    )
                },
        decreases splats.len() - i,
    {
        let splat = &splats[i];
        let attributes = derive(splat);
        out.push(Surfel { pos: splat.pos, color: attributes.color, normal: attributes.normal });
        i += 1;
    }
    out
}

/// Runs the upsampling kernel over `splats`.
///
/// Gives `factor` surfels per splat.  Output `o` is what `replicate` gave
/// for splat `o / factor`, replica `o % factor` and the factor, so that
/// the replicas of one splat stand together and splats keep their order.
pub fn upsample<F: Fn(&GaussianSplat, u32, u32) -> Surfel>(
    splats: &[GaussianSplat],
    factor: u32,
    replicate: F,
) -> (out: Vec<Surfel>)
    requires
        factor >= 1,
        splats.len() * factor <= usize::MAX,
        forall|o: nat|
            o < splats.len() * factor ==> call_requires(
                replicate,
                (
                    &splats[#[trigger] source_of(o, factor as nat) as int],
                    replica_of(o, factor as nat) as u32,
                    factor,
                ),
            ),
    ensures
        out.len() == splats.len() * factor,
        forall|o: nat|
            o < splats.len() * factor ==> call_ensures(
                replicate,
                (
                    &splats[#[trigger] source_of(o, factor as nat) as int],
                    replica_of(o, factor as nat) as u32,
                    factor,
                ),
                out[o as int],
            ),
{
    let count: usize = splats.len() * (factor as usize);
    let mut out: Vec<Surfel> = Vec::new();
    let mut o: usize = 0;
    while o < count
        invariant
            factor >= 1,
            count == splats.len() * factor,
            o <= count,
            out.len() == o,
            forall|w: nat|
                w < splats.len() * factor ==> call_requires(
                    replicate,
                    (
                        &splats[#[trigger] source_of(w, factor as nat) as int],
                        replica_of(w, factor as nat) as u32,
                        factor,
                    ),
                ),
            forall|w: nat|
                w < o ==> call_ensures(
                    replicate,
                    (
                        &splats[#[trigger] source_of(w, factor as nat) as int],
                        replica_of(w, factor as nat) as u32,
                        factor,
                    ),
                    out[w as int],
                ),
        decreases count - o,
    {
        proof {
            lemma_split_output(o as nat, splats.len() as nat, factor as nat);
        }
        let source: usize = o / (factor as usize);
        let replica: u32 = (o % (factor as usize)) as u32;
        assert(source == source_of(o as nat, factor as nat));
        assert(replica == replica_of(o as nat, factor as nat));
        let surfel = replicate(&splats[source], replica, factor);
        out.push(surfel);
        o += 1;
    }
    out
}

} // verus!
