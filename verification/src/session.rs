//! Choosing the adapter a session runs on.
//!
//! The caller lists the adapters the machine offers; the choice among them
//! is made here.  Adapters that render in software and adapters that are
//! delegated to a browser are never chosen.  Among the others a primary
//! native backend is preferred to a secondary native one, and that to
//! anything else; adapters of equal standing are told apart by the power
//! preference, and if that leaves several, the first listed wins.

use vstd::prelude::*;
use crate::error::BackendError;

verus! {

/// The graphics interface an adapter is reached through.
#[derive(Clone, Copy, Debug, PartialEq, Eq)]
pub enum Backend {
    /// No real backend.
    Empty,
    /// Vulkan.
    Vulkan,
    /// Metal.
    Metal,
    /// Direct3D 12.
    Dx12,
    /// OpenGL or OpenGL ES.
    Gl,
    /// WebGPU as offered by a browser.
    BrowserWebGpu,
}

/// What kind of hardware an adapter is.
#[derive(Clone, Copy, Debug, PartialEq, Eq)]
pub enum DeviceType {
    /// Unknown.
    Other,
    /// A GPU that shares memory with the CPU.
    IntegratedGpu,
    /// A GPU with memory of its own.
    DiscreteGpu,
    /// A virtual or hosted GPU.
    VirtualGpu,
    /// The CPU, rendering in software.
    Cpu,
}

/// Which adapter to favour among equals.
#[derive(Clone, Copy, Debug, PartialEq, Eq)]
pub enum PowerPreference {
    /// None in particular.
    NoPreference,
    /// The one that draws the least power.
    LowPower,
    /// The one that performs best.
    HighPerformance,
}

/// What the selection reads of an adapter.
#[derive(Clone, Copy, Debug, PartialEq, Eq)]
pub struct AdapterInfo {
    /// The backend the adapter is reached through.
    pub backend: Backend,
    /// The kind of hardware it is.
    pub device_type: DeviceType,
    /// Whether it can present to the surface of the session, if there is
    /// one.
    pub surface_compatible: bool,
}

/// Standing of a backend: 2 for a primary native backend, 1 for a
/// secondary native backend, 0 for anything else.
pub open spec fn backend_rank(backend: Backend) -> nat {
    match backend {
        Backend::Vulkan | Backend::Metal | Backend::Dx12 => 2,
        Backend::Gl => 1,
        Backend::Empty | Backend::BrowserWebGpu => 0,
    }
}

/// How well a kind of hardware answers a power preference: 2 for the kind
/// the preference asks for, 1 for the other kind of GPU, 0 for anything
/// else and where there is no preference.
pub open spec fn power_rank(device_type: DeviceType, preference: PowerPreference) -> nat {
    match (preference, device_type) {
        (PowerPreference::HighPerformance, DeviceType::DiscreteGpu) => 2,
        (PowerPreference::HighPerformance, DeviceType::IntegratedGpu) => 1,
        (PowerPreference::LowPower, DeviceType::IntegratedGpu) => 2,
        (PowerPreference::LowPower, DeviceType::DiscreteGpu) => 1,
        _ => 0,
    }
}

impl AdapterInfo {
    /// The adapter may be chosen at all: it is neither a software renderer
    /// nor delegated to a browser, and it can present to the session's
    /// surface where there is one.
    pub open spec fn eligible(self, needs_surface: bool) -> bool {
        &&& self.device_type != DeviceType::Cpu
        &&& self.backend != Backend::BrowserWebGpu
        &&& needs_surface ==> self.surface_compatible
    }

    /// Standing of the adapter: the backend decides, the power preference
    /// breaks ties.
    pub open spec fn rank(self, preference: PowerPreference) -> nat {
        3 * backend_rank(self.backend) + power_rank(self.device_type, preference)
    }

    /// Tells whether the adapter may be chosen at all.
    pub fn is_eligible(&self, needs_surface: bool) -> (yes: bool)
        ensures
            yes == self.eligible(needs_surface),
    {
        let software = match self.device_type {
            DeviceType::Cpu => true,
            _ => false,
        };
        let delegated = match self.backend {
            Backend::BrowserWebGpu => true,
            _ => false,
        };
        !software && !delegated && (!needs_surface || self.surface_compatible)
    }

    /// Computes the standing of the adapter.
    pub fn standing(&self, preference: PowerPreference) -> (rank: u8)
        ensures
            rank == self.rank(preference),
    {
        let backend: u8 = match self.backend {
            Backend::Vulkan | Backend::Metal | Backend::Dx12 => 2,
            Backend::Gl => 1,
            Backend::Empty | Backend::BrowserWebGpu => 0,
        };
        let power: u8 = match (preference, self.device_type) {
            (PowerPreference::HighPerformance, DeviceType::DiscreteGpu) => 2,
            (PowerPreference::HighPerformance, DeviceType::IntegratedGpu) => 1,
            (PowerPreference::LowPower, DeviceType::IntegratedGpu) => 2,
            (PowerPreference::LowPower, DeviceType::DiscreteGpu) => 1,
            _ => 0,
        };
        3 * backend + power
    }
}

/// Some adapter in the list may be chosen.
pub open spec fn any_eligible(candidates: Seq<AdapterInfo>, needs_surface: bool) -> bool {
    exists|j: int| 0 <= j < candidates.len() && (#[trigger] candidates[j]).eligible(needs_surface)
}

/// Adapter `i` is the one the policy picks: it may be chosen, none that may
/// be chosen stands higher, and none listed before it stands as high.
pub open spec fn is_selected(
    candidates: Seq<AdapterInfo>,
    preference: PowerPreference,
    needs_surface: bool,
    i: int,
) -> bool {
    &&& 0 <= i < candidates.len()
    &&& candidates[i].eligible(needs_surface)
    &&& forall|j: int|
        0 <= j < candidates.len() && (#[trigger] candidates[j]).eligible(needs_surface)
            ==> candidates[j].rank(preference) <= candidates[i].rank(preference)
    &&& forall|j: int|
        0 <= j < i && (#[trigger] candidates[j]).eligible(needs_surface) ==> candidates[j].rank(
            preference,
        ) < candidates[i].rank(preference)
}

/// The policy picks at most one adapter.
pub proof fn lemma_selection_unique(
    candidates: Seq<AdapterInfo>,
    preference: PowerPreference,
    needs_surface: bool,
    a: int,
    b: int,
)
    requires
        is_selected(candidates, preference, needs_surface, a),
        is_selected(candidates, preference, needs_surface, b),
    ensures
        a == b,
{
    if a < b {
        assert(candidates[a].eligible(needs_surface));
        assert(candidates[b].eligible(needs_surface));
    } else if b < a {
        assert(candidates[a].eligible(needs_surface));
        assert(candidates[b].eligible(needs_surface));
    }
}

/// Chooses the adapter for a session.
///
/// Gives the index of the adapter the policy picks, or `NoAdapter` exactly
/// when no adapter in the list may be chosen.
pub fn select_adapter(
    candidates: &[AdapterInfo],
    preference: PowerPreference,
    needs_surface: bool,
) -> (chosen: Result<usize, BackendError>)
    ensures
        any_eligible(candidates@, needs_surface) ==> (chosen matches Ok(i) && is_selected(
            candidates@,
            preference,
            needs_surface,
            i as int,
        )),
        !any_eligible(candidates@, needs_surface) ==> chosen matches Err(BackendError::NoAdapter),
{
    let mut best: Option<usize> = None;
    let mut best_rank: u8 = 0;
    let mut j: usize = 0;
    while j < candidates.len()
        invariant
            j <= candidates.len(),
            best is None ==> forall|k: int|
                0 <= k < j ==> !(#[trigger] candidates@[k]).eligible(needs_surface),
            best matches Some(i) ==> {
                &&& i < j
                &&& best_rank == candidates@[i as int].rank(preference)
                &&& candidates@[i as int].eligible(needs_surface)
                &&& forall|k: int|
                    0 <= k < j && (#[trigger] candidates@[k]).eligible(needs_surface)
                        ==> candidates@[k].rank(preference) <= best_rank
                &&& forall|k: int|
                    0 <= k < i && (#[trigger] candidates@[k]).eligible(needs_surface)
                        ==> candidates@[k].rank(preference) < best_rank
            },
        decreases candidates.len() - j,
    {
        let candidate = &candidates[j];
        if candidate.is_eligible(needs_surface) {
            let rank = candidate.standing(preference);
            let better = match best {
                None => true,
                Some(_) => rank > best_rank,
            };
            if better {
                best = Some(j);
                best_rank = rank;
            }
        }
        j += 1;
    }
    match best {
        Some(i) => Ok(i),
        None => Err(BackendError::NoAdapter),
    }
}

} // verus!
