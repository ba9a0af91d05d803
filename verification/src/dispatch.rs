//! Planning one run of a kernel on the accelerator.
//!
//! A plan says what to upload, how large the output is and how many
//! workgroups to dispatch.  It is made before the accelerator is touched
//! and is refused where the device could not take it, so that nothing is
//! allocated or dispatched in vain.  Carrying the plan out is the
//! caller's business; the bytes that come back are decoded here.

use vstd::prelude::*;
use crate::codec::{
    decode_surfels, encode_splats, lemma_splat_round_trip, splat_at, splats_bytes, surfels,
};
use crate::error::{BackendError, ReadbackError};
use crate::splat::{GaussianSplat, Surfel};
use crate::word::{push_word, words_bytes};
use crate::worker::{lemma_slot_in_bounds, slot_of, workgroup_count, workgroups_for};

verus! {

/// Size of the parameter block of the upsampling kernel.
pub const PARAMS_BYTES: usize = 16;

/// What a device allows, as far as a dispatch depends on it.
#[derive(Clone, Copy, Debug, PartialEq, Eq)]
pub struct DeviceLimits {
    /// Largest buffer that can be created, in bytes.
    pub max_buffer_size: u64,
    /// Largest range of a buffer that can be bound as storage, in bytes.
    pub max_storage_buffer_binding_size: u32,
    /// Largest number of workgroups in one dimension of a dispatch.
    pub max_compute_workgroups_per_dimension: u32,
}

impl DeviceLimits {
    /// Largest storage buffer that can be both created and bound whole.
    pub open spec fn storage_capacity(self) -> nat {
        if self.max_storage_buffer_binding_size <= self.max_buffer_size {
            self.max_storage_buffer_binding_size as nat
        } else {
            self.max_buffer_size as nat
        }
    }

    /// The device can take `splats` splats in and give `outputs` surfels
    /// out in one dispatch: both buffers fit, the number of outputs fits
    /// the 32 bits a draw call counts vertices in, and there are no more
    /// workgroups than allowed.
    pub open spec fn admits(self, splats: nat, outputs: nat) -> bool {
        &&& 64 * splats <= self.storage_capacity()
        &&& 48 * outputs <= self.storage_capacity()
        &&& outputs <= u32::MAX
        &&& workgroups_for(outputs) <= self.max_compute_workgroups_per_dimension
    }

    /// Largest storage buffer that can be both created and bound whole.
    pub fn capacity(&self) -> (bytes: u64)
        ensures
            bytes == self.storage_capacity(),
    {
        if (self.max_storage_buffer_binding_size as u64) <= self.max_buffer_size {
            self.max_storage_buffer_binding_size as u64
        } else {
            self.max_buffer_size
        }
    }
}

/// One run of a kernel, ready to be carried out.
#[derive(Debug, PartialEq, Eq)]
pub struct DispatchPlan {
    /// Contents of the input buffer: the splats in accelerator layout.
    pub input: Vec<u8>,
    /// Contents of the parameter block; empty where the kernel takes none.
    pub params: Vec<u8>,
    /// Number of surfels the kernel writes.
    pub output_count: u32,
    /// Size in bytes of the output buffer, and of a staging buffer.
    pub output_bytes: u64,
    /// Number of workgroups to dispatch.
    pub workgroups: u32,
}

/// The parameter block of the upsampling kernel: the factor, then three
/// padding words.
pub open spec fn params_bytes(factor: u32) -> Seq<u8> {
    words_bytes(seq![factor, 0u32, 0u32, 0u32])
}

impl DispatchPlan {
    /// The plan runs a kernel over `splats` that writes `factor` surfels
    /// for each, with `params` as its parameter block.
    pub open spec fn is_for(self, splats: Seq<GaussianSplat>, factor: nat, params: Seq<u8>) -> bool {
        &&& self.input@ == splats_bytes(splats)
        &&& self.input@.len() == 64 * splats.len()
        &&& self.params@ == params
        &&& self.output_count == splats.len() * factor
        &&& self.output_bytes == 48 * (splats.len() * factor)
        &&& self.workgroups == workgroups_for(splats.len() * factor)
    }

    /// Decodes the bytes read back from the staging buffer.
    ///
    /// Succeeds exactly when as many bytes came back as the output buffer
    /// holds, and then gives one surfel per 48 bytes, in order: as many as
    /// the plan's output count where the plan is consistent.
    pub fn read_back(&self, mapped: &[u8]) -> (decoded: Result<Vec<Surfel>, ReadbackError>)
        ensures
            mapped.len() == self.output_bytes ==> decoded is Ok && decoded->Ok_0@ == surfels(
                mapped@,
            ) && decoded->Ok_0.len() == self.output_bytes / 48,
            mapped.len() != self.output_bytes ==> decoded == Err::<Vec<Surfel>, ReadbackError>(
                ReadbackError::SizeMismatch,
            ),
            self.output_bytes == 48 * self.output_count && decoded is Ok ==> decoded->Ok_0.len()
                == self.output_count,
    {
        if mapped.len() as u64 == self.output_bytes {
            Ok(decode_surfels(mapped))
        } else {
            Err(ReadbackError::SizeMismatch)
        }
    }
}

/// Writes the parameter block of the upsampling kernel.
pub fn encode_params(factor: u32) -> (out: Vec<u8>)
    ensures
        out@ == params_bytes(factor),
        out.len() == 16,
{
    let mut out: Vec<u8> = Vec::new();
    push_word(&mut out, factor);
    push_word(&mut out, 0);
    push_word(&mut out, 0);
    push_word(&mut out, 0);
    assert(out@ =~= params_bytes(factor));
    out
}

/// Plans a dispatch that writes `factor` surfels per splat.
fn plan(splats: &[GaussianSplat], factor: u32, params: Vec<u8>, limits: &DeviceLimits) -> (planned:
    Result<Option<DispatchPlan>, BackendError>)
    requires
        factor >= 1,
    ensures
        splats.len() == 0 ==> planned matches Ok(None),
        splats.len() > 0 && !limits.admits(splats.len() as nat, (splats.len() * factor) as nat)
            ==> planned matches Err(BackendError::LimitsExceeded),
        splats.len() > 0 && limits.admits(splats.len() as nat, (splats.len() * factor) as nat)
            ==> (planned matches Ok(Some(p)) && p.is_for(splats@, factor as nat, params@)),
{
    let n: usize = splats.len();
    if n == 0 {
        return Ok(None);
    }
    let capacity: u64 = limits.capacity();
    let n64: u64 = n as u64;
    assert(n * factor >= n) by (nonlinear_arith)
        requires
            factor >= 1,
            n >= 0,
    ;
    if n64 > capacity / 64 {
        return Err(BackendError::LimitsExceeded);
    }
    let count: u64 = match n64.checked_mul(factor as u64) {
        Some(count) => count,
        None => {
            return Err(BackendError::LimitsExceeded);
        },
    };
    if count > 0xffff_ffff || count > capacity / 48 {
        return Err(BackendError::LimitsExceeded);
    }
    let groups: u64 = workgroup_count(count);
    if groups > limits.max_compute_workgroups_per_dimension as u64 {
        return Err(BackendError::LimitsExceeded);
    }
    let input = encode_splats(splats);
    Ok(
        Some(
            DispatchPlan {
                input,
                params,
                output_count: count as u32,
                output_bytes: 48 * count,
                workgroups: groups as u32,
            },
        ),
    )
}

/// Plans the geometry kernel over `splats`: one surfel per splat, one
/// worker per surfel, `ceil(n / 64)` workgroups.
///
/// An empty array needs no dispatch and gives `None`.  A dispatch the
/// device could not take is refused.
pub fn plan_geometry(splats: &[GaussianSplat], limits: &DeviceLimits) -> (planned: Result<
    Option<DispatchPlan>,
    BackendError,
>)
    ensures
        splats.len() == 0 ==> planned matches Ok(None),
        splats.len() > 0 && !limits.admits(splats.len() as nat, splats.len() as nat)
            ==> planned matches Err(BackendError::LimitsExceeded),
        splats.len() > 0 && limits.admits(splats.len() as nat, splats.len() as nat)
            ==> (planned matches Ok(Some(p)) && p.is_for(splats@, 1, Seq::<u8>::empty())),
{
    assert(splats.len() * 1 == splats.len());
    plan(splats, 1, Vec::new(), limits)
}

/// Plans the upsampling kernel over `splats`: `factor` surfels per splat,
/// one worker per surfel, `ceil(n * factor / 64)` workgroups, and the
/// factor in the parameter block.
///
/// An empty array needs no dispatch and gives `None`.  A dispatch the
/// device could not take is refused.
pub fn plan_upsample(splats: &[GaussianSplat], factor: u32, limits: &DeviceLimits) -> (planned:
    Result<Option<DispatchPlan>, BackendError>)
    requires
        factor >= 1,
    ensures
        splats.len() == 0 ==> planned matches Ok(None),
        splats.len() > 0 && !limits.admits(splats.len() as nat, (splats.len() * factor) as nat)
            ==> planned matches Err(BackendError::LimitsExceeded),
        splats.len() > 0 && limits.admits(splats.len() as nat, (splats.len() * factor) as nat)
            ==> (planned matches Ok(Some(p)) && p.is_for(
            splats@,
            factor as nat,
            params_bytes(factor),
        )),
{
    plan(splats, factor, encode_params(factor), limits)
}

/// What every worker of a planned dispatch finds.
///
/// A worker numbered below the output count has a slot: the 64 bytes it
/// reads lie inside the input buffer and hold its splat, and the 48 bytes
/// it writes lie inside the output buffer.  The dispatch has a worker for
/// every output, and fewer than 64 workers beyond them, which have no
/// slot.
pub proof fn lemma_planned_workers(
    plan: DispatchPlan,
    splats: Seq<GaussianSplat>,
    factor: nat,
    params: Seq<u8>,
    worker: nat,
)
    requires
        factor >= 1,
        plan.is_for(splats, factor, params),
        worker < 64 * plan.workgroups,
    ensures
        plan.output_count <= 64 * plan.workgroups < plan.output_count + 64,
        worker >= plan.output_count ==> slot_of(worker, splats.len(), factor) is None,
        worker < plan.output_count ==> (slot_of(worker, splats.len(), factor) matches Some(slot)
            && {
            &&& slot.source < splats.len()
            &&& slot.input_offset + 64 <= plan.input@.len()
            &&& splat_at(plan.input@, slot.input_offset as int) == splats[slot.source as int]
            &&& slot.output_offset + 48 <= plan.output_bytes
        }),
{
    if worker < plan.output_count {
        lemma_slot_in_bounds(worker, splats.len(), factor);
        let slot = slot_of(worker, splats.len(), factor)->0;
        lemma_splat_round_trip(splats, slot.source as int);
    }
}

} // verus!
