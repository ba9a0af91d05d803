//! Which local axis of a splat is its shortest.
//!
//! A flattened Gaussian is thinnest along the axis with the smallest
//! extent, and that axis, turned into world space, approximates the normal
//! of the surface the splat lies on.  The choice is made here on the bit
//! patterns of the three scale components; turning the chosen axis is left
//! to floating-point code.

use vstd::prelude::*;
use crate::bits::{abs_le, is_abs_le, is_nan, magnitude, ONE};

verus! {

/// One of the three local axes of a splat.
#[derive(Clone, Copy, Debug, PartialEq, Eq)]
pub enum Axis {
    /// The first axis.
    X,
    /// The second axis.
    Y,
    /// The third axis.
    Z,
}

impl Axis {
    /// Position of the axis in a three-component vector.
    pub open spec fn position(self) -> int {
        match self {
            Axis::X => 0,
            Axis::Y => 1,
            Axis::Z => 2,
        }
    }

    /// The unit vector along the axis.
    pub open spec fn unit_vector(self) -> [u32; 3] {
        match self {
            Axis::X => [ONE, 0u32, 0u32],
            Axis::Y => [0u32, ONE, 0u32],
            Axis::Z => [0u32, 0u32, ONE],
        }
    }

    /// Position of the axis in a three-component vector.
    pub fn index(self) -> (i: usize)
        ensures
            i == self.position(),
    {
        match self {
            Axis::X => 0,
            Axis::Y => 1,
            Axis::Z => 2,
        }
    }

    /// The unit vector along the axis: `1.0` at the axis's position and
    /// `+0.0` elsewhere.
    pub fn unit(self) -> (v: [u32; 3])
        ensures
            v == self.unit_vector(),
            forall|k: int| 0 <= k < 3 ==> v[k] == if k == self.position() { ONE } else { 0u32 },
    {
        match self {
            Axis::X => [ONE, 0u32, 0u32],
            Axis::Y => [0u32, ONE, 0u32],
            Axis::Z => [0u32, 0u32, ONE],
        }
    }
}

/// The axis along which `scale` is shortest: `X` if its extent is no
/// longer than both others, else `Y` if its extent is no longer than
/// `Z`'s, else `Z`.
pub open spec fn shortest_axis_of(scale: [u32; 3]) -> Axis {
    if abs_le(scale[0], scale[1]) && abs_le(scale[0], scale[2]) {
        Axis::X
    } else if abs_le(scale[1], scale[2]) {
        Axis::Y
    } else {
        Axis::Z
    }
}

/// Picks the local axis along which the splat is shortest.
///
/// Where all three components are numbers, the axis picked has the
/// smallest absolute scale, and among several smallest it is the first in
/// the order `X`, `Y`, `Z`.  A component that is no number compares as
/// neither shorter nor longer than anything.
pub fn shortest_axis(scale: &[u32; 3]) -> (axis: Axis)
    ensures
        axis == shortest_axis_of(*scale),
        !is_nan(scale[0]) && !is_nan(scale[1]) && !is_nan(scale[2]) ==> {
            &&& forall|k: int|
                0 <= k < 3 ==> magnitude(scale[axis.position()]) <= magnitude(#[trigger] scale[k])
            &&& forall|k: int|
                0 <= k < axis.position() ==> magnitude(scale[axis.position()]) < magnitude(
                    #[trigger] scale[k],
                )
        },
{
    if is_abs_le(scale[0], scale[1]) && is_abs_le(scale[0], scale[2]) {
        Axis::X
    } else if is_abs_le(scale[1], scale[2]) {
        Axis::Y
    } else {
        Axis::Z
    }
}

} // verus!
