//! Which element each worker of a dispatch touches.
//!
//! A kernel is run by workers numbered from zero, in workgroups of 64.
//! With `n` input splats and a replication factor `f` there are `n * f`
//! outputs; worker `o` produces output `o`, which is replica `o % f` of
//! splat `o / f`.  The geometry kernel is the case `f == 1`.  Workers
//! numbered `n * f` and above, which exist only because workgroups are
//! whole, do nothing.

use vstd::prelude::*;
use vstd::arithmetic::div_mod::{
    lemma_fundamental_div_mod, lemma_fundamental_div_mod_converse,
};

verus! {

/// Number of workers in a workgroup.
pub const WORKGROUP_SIZE: u32 = 64;

/// Number of workgroups that hold `count` workers: `ceil(count / 64)`.
pub open spec fn workgroups_for(count: nat) -> nat {
    (count + 63) / 64
}

/// The output index of replica `replica` of splat `source`.
pub open spec fn output_of(source: nat, replica: nat, factor: nat) -> nat {
    source * factor + replica
}

/// The splat that output `output` is derived from.
pub open spec fn source_of(output: nat, factor: nat) -> nat
    recommends
        factor >= 1,
{
    output / factor
}

/// Which replica of its splat output `output` is.
pub open spec fn replica_of(output: nat, factor: nat) -> nat
    recommends
        factor >= 1,
{
    output % factor
}

/// What one worker reads and writes.
#[derive(Clone, Copy, Debug, PartialEq, Eq)]
pub struct WorkerSlot {
    /// Index of the splat the worker reads.
    pub source: u32,
    /// Which replica of that splat the worker produces.
    pub replica: u32,
    /// Byte offset of the splat in the input buffer; it spans 64 bytes.
    pub input_offset: u64,
    /// Byte offset of the surfel in the output buffer; it spans 48 bytes.
    pub output_offset: u64,
}

/// The slot of worker `worker` in a dispatch over `splats` splats with
/// replication factor `factor`, or `None` where the worker does nothing.
pub open spec fn slot_of(worker: nat, splats: nat, factor: nat) -> Option<WorkerSlot>
    recommends
        factor >= 1,
{
    if worker < splats * factor {
        Some(
            WorkerSlot {
                source: source_of(worker, factor) as u32,
                replica: replica_of(worker, factor) as u32,
                input_offset: (64 * source_of(worker, factor)) as u64,
                output_offset: (48 * worker) as u64,
            },
        )
    } else {
        None
    }
}

/// The workgroups of a dispatch are the fewest that hold every worker.
pub proof fn lemma_workgroups_are_ceiling(count: nat)
    ensures
        count <= 64 * workgroups_for(count) < count + 64,
        count == 0 <==> workgroups_for(count) == 0,
{
}

/// An output index splits into a splat and a replica, both in range, and
/// is put together again from them.
pub proof fn lemma_split_output(output: nat, splats: nat, factor: nat)
    requires
        factor >= 1,
        output < splats * factor,
    ensures
        source_of(output, factor) < splats,
        replica_of(output, factor) < factor,
        output_of(source_of(output, factor), replica_of(output, factor), factor) == output,
{
    let q = output as int / factor as int;
    let r = output as int % factor as int;
    lemma_fundamental_div_mod(output as int, factor as int);
    assert(0 <= r < factor);
    assert(q * factor == factor * q) by (nonlinear_arith);
    assert(q < splats) by (nonlinear_arith)
        requires
            q * factor + r == output,
            0 <= r,
            output < splats * factor,
            factor >= 1,
    ;
    assert(q >= 0) by (nonlinear_arith)
        requires
            q * factor + r == output,
            r < factor,
            output >= 0,
            factor >= 1,
    ;
}

/// A splat and a replica in range give an output index in range, which
/// splits into the same splat and replica.
pub proof fn lemma_join_output(source: nat, replica: nat, splats: nat, factor: nat)
    requires
        source < splats,
        replica < factor,
    ensures
        output_of(source, replica, factor) < splats * factor,
        source_of(output_of(source, replica, factor), factor) == source,
        replica_of(output_of(source, replica, factor), factor) == replica,
{
    lemma_fundamental_div_mod_converse(
        output_of(source, replica, factor) as int,
        factor as int,
        source as int,
        replica as int,
    );
    assert(source * factor + replica < splats * factor) by (nonlinear_arith)
        requires
            source < splats,
            replica < factor,
    ;
}

/// The dispatch reaches every output, and a worker that has a slot stays
/// inside both buffers.
pub proof fn lemma_slot_in_bounds(worker: nat, splats: nat, factor: nat)
    requires
        factor >= 1,
        splats * factor <= u32::MAX,
        worker < splats * factor,
    ensures
        worker < 64 * workgroups_for(splats * factor),
        slot_of(worker, splats, factor) matches Some(slot) && {
            &&& slot.source == source_of(worker, factor)
            &&& slot.replica == replica_of(worker, factor)
            &&& slot.source < splats
            &&& slot.replica < factor
            &&& slot.input_offset == 64 * slot.source
            &&& slot.input_offset + 64 <= 64 * splats
            &&& slot.output_offset == 48 * worker
            &&& slot.output_offset + 48 <= 48 * (splats * factor)
        },
{
    lemma_split_output(worker, splats, factor);
    assert(splats <= splats * factor) by (nonlinear_arith)
        requires
            factor >= 1,
    ;
}

/// With one output per splat every worker that has a slot reads and writes
/// the element of its own number.
pub proof fn lemma_geometry_slot(worker: nat, splats: nat)
    requires
        splats <= u32::MAX,
        worker < splats,
    ensures
        slot_of(worker, splats, 1) == Some(
            WorkerSlot {
                source: worker as u32,
                replica: 0,
                input_offset: (64 * worker) as u64,
                output_offset: (48 * worker) as u64,
            },
        ),
{
}

/// Two different workers never write the same byte.
pub proof fn lemma_slots_do_not_overlap(a: nat, b: nat, splats: nat, factor: nat)
    requires
        factor >= 1,
        splats * factor <= u32::MAX,
        a != b,
        slot_of(a, splats, factor) is Some,
        slot_of(b, splats, factor) is Some,
    ensures
        slot_of(a, splats, factor)->0.output_offset + 48 <= slot_of(
            b,
            splats,
            factor,
        )->0.output_offset || slot_of(b, splats, factor)->0.output_offset + 48 <= slot_of(
            a,
            splats,
            factor,
        )->0.output_offset,
{
    lemma_slot_in_bounds(a, splats, factor);
    lemma_slot_in_bounds(b, splats, factor);
}

/// Counts the workgroups to dispatch for `count` workers.
pub fn workgroup_count(count: u64) -> (groups: u64)
    ensures
        groups == workgroups_for(count as nat),
{
    if count % 64 == 0 {
        count / 64
    } else {
        count / 64 + 1
    }
}

/// Gives the output index of replica `replica` of splat `source`.
pub fn output_index(source: u32, replica: u32, factor: u32) -> (output: u64)
    ensures
        output == output_of(source as nat, replica as nat, factor as nat),
{
    assert(source * factor + replica <= u64::MAX) by (nonlinear_arith)
        requires
            source <= u32::MAX,
            factor <= u32::MAX,
            replica <= u32::MAX,
    ;
    (source as u64) * (factor as u64) + (replica as u64)
}

/// Tells what worker `worker` touches in a dispatch over `splats` splats
/// with replication factor `factor`.
///
/// A worker at or beyond `splats * factor` gets `None`: it must neither
/// read nor write.  Any other worker gets the one splat it reads and the
/// one surfel it writes.
pub fn worker_slot(worker: u32, splats: u32, factor: u32) -> (slot: Option<WorkerSlot>)
    requires
        factor >= 1,
    ensures
        slot == slot_of(worker as nat, splats as nat, factor as nat),
        slot is Some <==> worker < splats * factor,
{
    assert(splats * factor <= u64::MAX) by (nonlinear_arith)
        requires
            splats <= u32::MAX,
            factor <= u32::MAX,
    ;
    let count: u64 = (splats as u64) * (factor as u64);
    if (worker as u64) < count {
        let source: u32 = worker / factor;
        let replica: u32 = worker % factor;
        Some(
            WorkerSlot {
                source,
                replica,
                input_offset: 64 * (source as u64),
                output_offset: 48 * (worker as u64),
            },
        )
    } else {
        None
    }
}

} // verus!
