//! The two primitives: the Gaussian splat that comes in and the surfel
//! that goes out.
//!
//! Every component is held as the IEEE-754 binary32 bit pattern of the
//! real number it stands for, so that a primitive can be moved between
//! byte buffers, the host and the accelerator without rounding and can be
//! compared exactly.

use vstd::prelude::*;

verus! {

/// An anisotropic 3-D Gaussian: where it sits, how opaque it is, how far it
/// reaches along its three local axes, how those axes are turned, and its
/// view-independent colour term.
#[derive(Clone, Copy, Debug, PartialEq, Eq)]
pub struct GaussianSplat {
    /// Centre, `x y z`.
    pub pos: [u32; 3],
    /// Opacity.
    pub opacity: u32,
    /// Extent along the local `x y z` axes.
    pub scale: [u32; 3],
    /// Orientation quaternion in `x y z w` order; it need not be normalised.
    pub rot: [u32; 4],
    /// Band-0 spherical-harmonic colour coefficients, `r g b`.
    pub sh_dc: [u32; 3],
}

/// A surface element: a position and two three-component attributes.
///
/// In the colour pipeline `color` carries the decoded colour and `normal`
/// the estimated normal.  In the covariance pipeline the same two slots
/// carry the normal and the first covariance row.
#[derive(Clone, Copy, Debug, PartialEq, Eq)]
pub struct Surfel {
    /// Centre, `x y z`.
    pub pos: [u32; 3],
    /// First attribute.
    pub color: [u32; 3],
    /// Second attribute.
    pub normal: [u32; 3],
}

impl GaussianSplat {
    /// The splat all of whose components are `+0.0`.
    pub open spec fn zero() -> GaussianSplat {
        GaussianSplat {
            pos: [0u32, 0u32, 0u32],
            opacity: 0,
            scale: [0u32, 0u32, 0u32],
            rot: [0u32, 0u32, 0u32, 0u32],
            sh_dc: [0u32, 0u32, 0u32],
        }
    }
}

impl Surfel {
    /// The surfel all of whose components are `+0.0`.
    pub open spec fn zero() -> Surfel {
        Surfel { pos: [0u32, 0u32, 0u32], color: [0u32, 0u32, 0u32], normal: [0u32, 0u32, 0u32] }
    }
}

impl Default for GaussianSplat {
    fn default() -> (s: GaussianSplat)
        ensures
            s == GaussianSplat::zero(),
    {
        GaussianSplat {
            pos: [0u32, 0u32, 0u32],
            opacity: 0,
            scale: [0u32, 0u32, 0u32],
            rot: [0u32, 0u32, 0u32, 0u32],
            sh_dc: [0u32, 0u32, 0u32],
        }
    }
}

impl Default for Surfel {
    fn default() -> (s: Surfel)
        ensures
            s == Surfel::zero(),
    {
        Surfel { pos: [0u32, 0u32, 0u32], color: [0u32, 0u32, 0u32], normal: [0u32, 0u32, 0u32] }
    }
}

} // verus!
