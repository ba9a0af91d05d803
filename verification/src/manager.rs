//! A loaded point cloud and the surfels last computed from it.
//!
//! The splats are fixed when the manager is made.  The surfels are empty
//! until a computation succeeds and are then replaced as a whole by each
//! later success; a computation that fails leaves them as they were.

use vstd::prelude::*;
use crate::codec::{decode_surfels, records, surfels};
use crate::dispatch::{plan_geometry, DeviceLimits, DispatchPlan};
use crate::error::{BackendError, ComputeError, FormatError, IndexError, ReadbackError};
use crate::host::{compute_surfels, Attributes};
use crate::ply::{body, decode, has_header};
use crate::splat::{GaussianSplat, Surfel};

verus! {

/// A point cloud together with its computed surfels.
pub struct SplatManager {
    splats: Vec<GaussianSplat>,
    surfels: Vec<Surfel>,
}

/// What accepting the outcome of an accelerated run does to a manager with
/// `count` splats and surfels `before`: mapped bytes of the right size
/// replace the surfels and give the count; anything else gives an error
/// and changes nothing.
pub open spec fn accepted(
    count: nat,
    before: Seq<Surfel>,
    outcome: Result<Vec<u8>, ComputeError>,
    after: Seq<Surfel>,
    result: Result<usize, ComputeError>,
) -> bool {
    match outcome {
        Ok(mapped) => if mapped@.len() == 48 * count {
            &&& after == surfels(mapped@)
            &&& after.len() == count
            &&& result == Ok::<usize, ComputeError>(count as usize)
        } else {
            &&& after == before
            &&& result == Err::<usize, ComputeError>(
                ComputeError::Readback(ReadbackError::SizeMismatch),
            )
        },
        Err(e) => {
            &&& after == before
            &&& result == Err::<usize, ComputeError>(e)
        },
    }
}

impl SplatManager {
    /// There are either no surfels or one for each splat.
    #[verifier::type_invariant]
    spec fn consistent(self) -> bool {
        self.surfels@.len() == 0 || self.surfels@.len() == self.splats@.len()
    }

    /// The splats.
    pub closed spec fn splats(self) -> Seq<GaussianSplat> {
        self.splats@
    }

    /// The surfels last computed; empty before the first success.
    pub closed spec fn surfels(self) -> Seq<Surfel> {
        self.surfels@
    }

    /// Makes a manager of `splats`, with no surfels yet.
    pub fn new(splats: Vec<GaussianSplat>) -> (manager: SplatManager)
        ensures
            manager.splats() == splats@,
            manager.surfels().len() == 0,
    {
        SplatManager { splats, surfels: Vec::new() }
    }

    /// Makes a manager of the splats stored in a point-cloud file.
    ///
    /// Fails exactly when the token that ends the header does not occur in
    /// `bytes`.
    pub fn from_bytes(bytes: &[u8]) -> (loaded: Result<SplatManager, FormatError>)
        ensures
            has_header(bytes@) ==> (loaded matches Ok(manager) && manager.splats() == records(
                body(bytes@),
            ) && manager.surfels().len() == 0),
            !has_header(bytes@) ==> loaded matches Err(FormatError::MissingHeaderEnd),
    {
        match decode(bytes) {
            Ok(splats) => Ok(SplatManager::new(splats)),
            Err(e) => Err(e),
        }
    }

    /// Number of splats.
    pub fn count(&self) -> (n: usize)
        ensures
            n == self.splats().len(),
    {
        self.splats.len()
    }

    /// Number of surfels: none, or as many as there are splats.
    pub fn surfel_count(&self) -> (n: usize)
        ensures
            n == self.surfels().len(),
            n == 0 || n == self.splats().len(),
    {
        proof {
            use_type_invariant(self);
        }
        self.surfels.len()
    }

    /// The splats, in file order.
    pub fn splats_slice(&self) -> (all: &[GaussianSplat])
        ensures
            all@ == self.splats(),
    {
        self.splats.as_slice()
    }

    /// The surfels last computed, in the order of their splats.
    pub fn surfels_slice(&self) -> (all: &[Surfel])
        ensures
            all@ == self.surfels(),
    {
        self.surfels.as_slice()
    }

    /// Position of splat `idx`.
    pub fn get_splat_pos(&self, idx: usize) -> (got: Result<[u32; 3], IndexError>)
        ensures
            idx < self.splats().len() ==> got == Ok::<[u32; 3], IndexError>(
                self.splats()[idx as int].pos,
            ),
            idx >= self.splats().len() ==> got == Err::<[u32; 3], IndexError>(
                (IndexError { index: idx, len: self.splats().len() as usize }),
            ),
    {
        if idx < self.splats.len() {
            Ok(self.splats[idx].pos)
        } else {
            Err(IndexError { index: idx, len: self.splats.len() })
        }
    }

    /// Rotation of splat `idx`, in `x y z w` order.
    pub fn get_splat_rot(&self, idx: usize) -> (got: Result<[u32; 4], IndexError>)
        ensures
            idx < self.splats().len() ==> got == Ok::<[u32; 4], IndexError>(
                self.splats()[idx as int].rot,
            ),
            idx >= self.splats().len() ==> got == Err::<[u32; 4], IndexError>(
                (IndexError { index: idx, len: self.splats().len() as usize }),
            ),
    {
        if idx < self.splats.len() {
            Ok(self.splats[idx].rot)
        } else {
            Err(IndexError { index: idx, len: self.splats.len() })
        }
    }

    /// Colour coefficients of splat `idx`.
    pub fn get_splat_sh(&self, idx: usize) -> (got: Result<[u32; 3], IndexError>)
        ensures
            idx < self.splats().len() ==> got == Ok::<[u32; 3], IndexError>(
                self.splats()[idx as int].sh_dc,
            ),
            idx >= self.splats().len() ==> got == Err::<[u32; 3], IndexError>(
                (IndexError { index: idx, len: self.splats().len() as usize }),
            ),
    {
        if idx < self.splats.len() {
            Ok(self.splats[idx].sh_dc)
        } else {
            Err(IndexError { index: idx, len: self.splats.len() })
        }
    }

    /// First attribute of surfel `idx`.
    pub fn get_surfel_color(&self, idx: usize) -> (got: Result<[u32; 3], IndexError>)
        ensures
            idx < self.surfels().len() ==> got == Ok::<[u32; 3], IndexError>(
                self.surfels()[idx as int].color,
            ),
            idx >= self.surfels().len() ==> got == Err::<[u32; 3], IndexError>(
                (IndexError { index: idx, len: self.surfels().len() as usize }),
            ),
    {
        if idx < self.surfels.len() {
            Ok(self.surfels[idx].color)
        } else {
            Err(IndexError { index: idx, len: self.surfels.len() })
        }
    }

    /// Second attribute of surfel `idx`.
    pub fn get_surfel_normal(&self, idx: usize) -> (got: Result<[u32; 3], IndexError>)
        ensures
            idx < self.surfels().len() ==> got == Ok::<[u32; 3], IndexError>(
                self.surfels()[idx as int].normal,
            ),
            idx >= self.surfels().len() ==> got == Err::<[u32; 3], IndexError>(
                (IndexError { index: idx, len: self.surfels().len() as usize }),
            ),
    {
        if idx < self.surfels.len() {
            Ok(self.surfels[idx].normal)
        } else {
            Err(IndexError { index: idx, len: self.surfels.len() })
        }
    }

    /// Computes the surfels on the host and gives their number.
    ///
    /// There is one surfel per splat afterwards; each sits where its splat
    /// sits and carries the attributes that `derive` gave for that splat.
    /// This path cannot fail.
    pub fn compute_geometry_cpu<F: Fn(&GaussianSplat) -> Attributes>(&mut self, derive: F) -> (n:
        usize)
        requires
            forall|i: int|
                0 <= i < old(self).splats().len() ==> call_requires(
                    derive,
                    (&#[trigger] old(self).splats()[i],),
                ),
        ensures
            final(self).splats() == old(self).splats(),
            n == old(self).splats().len(),
            final(self).surfels().len() == old(self).splats().len(),
            forall|i: int|
                0 <= i < old(self).splats().len() ==> {
                    &&& (#[trigger] final(self).surfels()[i]).pos == old(self).splats()[i].pos
                    &&& call_ensures(
                        derive,
                        (&old(self).splats()[i],),
                        (Attributes {
                            color: final(self).surfels()[i].color,
                            normal: final(self).surfels()[i].normal,
                        }),
                    )
                },
    {
        let splats = self.splats.as_slice();
        assert forall|i: int| 0 <= i < splats.len() implies call_requires(
            derive,
            (&#[trigger] splats[i],),
        ) by {
            assert(splats[i] == old(self).splats()[i]);
        }
        let computed = compute_surfels(splats, derive);
        let n = computed.len();
        self.surfels = computed;
        n
    }

    /// Plans the accelerated computation of the surfels.
    ///
    /// Gives `None` where there are no splats: then there is nothing to
    /// run and the accelerator is not needed.
    pub fn plan_geometry(&self, limits: &DeviceLimits) -> (planned: Result<
        Option<DispatchPlan>,
        BackendError,
    >)
        ensures
            self.splats().len() == 0 ==> planned matches Ok(None),
            self.splats().len() > 0 && !limits.admits(self.splats().len(), self.splats().len())
                ==> planned matches Err(BackendError::LimitsExceeded),
            self.splats().len() > 0 && limits.admits(self.splats().len(), self.splats().len())
                ==> (planned matches Ok(Some(p)) && p.is_for(
                self.splats(),
                1,
                Seq::<u8>::empty(),
            )),
    {
        plan_geometry(self.splats.as_slice(), limits)
    }

    /// Takes in the outcome of an accelerated run.
    ///
    /// Mapped bytes that hold exactly one surfel per splat replace the
    /// surfels, and their number is given.  Mapped bytes of any other size
    /// are a `SizeMismatch`, and a failed run is passed on; in both cases
    /// the surfels stay as they were.
    pub fn accept_readback(&mut self, outcome: Result<Vec<u8>, ComputeError>) -> (result: Result<
        usize,
        ComputeError,
    >)
        ensures
            final(self).splats() == old(self).splats(),
            accepted(
                old(self).splats().len(),
                old(self).surfels(),
                outcome,
                final(self).surfels(),
                result,
            ),
    {
        match outcome {
            Ok(mapped) => {
                let n = self.splats.len();
                if mapped.len() / 48 == n && mapped.len() % 48 == 0 {
                    let decoded = decode_surfels(mapped.as_slice());
                    self.surfels = decoded;
                    Ok(n)
                } else {
                    Err(ComputeError::Readback(ReadbackError::SizeMismatch))
                }
            },
            Err(e) => Err(e),
        }
    }

    /// Computes the surfels on the accelerator and gives their number.
    ///
    /// `run` carries a plan out and reports the bytes it read back, or why
    /// it could not.  It is called at most once, and not at all where
    /// there are no splats or the device could not take the dispatch.
    pub fn compute_geometry<R: FnOnce(&DispatchPlan) -> Result<Vec<u8>, ComputeError>>(
        &mut self,
        limits: &DeviceLimits,
        run: R,
    ) -> (result: Result<usize, ComputeError>)
        requires
            forall|plan: DispatchPlan|
                plan.is_for(old(self).splats(), 1, Seq::<u8>::empty()) ==> call_requires(
                    run,
                    (&plan,),
                ),
        ensures
            final(self).splats() == old(self).splats(),
            old(self).splats().len() == 0 ==> result == Ok::<usize, ComputeError>(0)
                && final(self).surfels().len() == 0,
            old(self).splats().len() > 0 && !limits.admits(
                old(self).splats().len(),
                old(self).splats().len(),
            ) ==> result == Err::<usize, ComputeError>(
                ComputeError::Backend(BackendError::LimitsExceeded),
            ) && final(self).surfels() == old(self).surfels(),
            old(self).splats().len() > 0 && limits.admits(
                old(self).splats().len(),
                old(self).splats().len(),
            ) ==> exists|plan: DispatchPlan, outcome: Result<Vec<u8>, ComputeError>|
                {
                    &&& plan.is_for(old(self).splats(), 1, Seq::<u8>::empty())
                    &&& call_ensures(run, (&plan,), outcome)
                    &&& accepted(
                        old(self).splats().len(),
                        old(self).surfels(),
                        outcome,
                        final(self).surfels(),
                        result,
                    )
                },
    {
        proof {
            use_type_invariant(&*self);
        }
        match plan_geometry(self.splats.as_slice(), limits) {
            Ok(None) => Ok(0),
            Ok(Some(plan)) => {
                assert(plan.is_for(old(self).splats(), 1, Seq::<u8>::empty()));
                let outcome = run(&plan);
                let ghost seen = outcome;
                let result = self.accept_readback(outcome);
                assert(call_ensures(run, (&plan,), seen));
                result
            },
            Err(e) => Err(ComputeError::Backend(e)),
        }
    }
}

} // verus!
