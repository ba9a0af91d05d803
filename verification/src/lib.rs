//! Turns a point cloud of Gaussian splats into surfels: points that carry
//! a colour and a normal, or a normal and a covariance row, ready to be
//! drawn or processed further.
//!
//! This crate holds what can be decided without touching a device or a
//! real number: the packed layouts and their codecs, the framing of
//! point-cloud files, the choice of a splat's shortest axis, the choice of
//! an adapter, the sizing of kernel dispatches and the addressing of their
//! workers, and the bookkeeping of a loaded cloud and its results.  Real
//! numbers are carried as IEEE-754 binary32 bit patterns throughout.

pub mod axis;
pub mod bits;
pub mod codec;
pub mod dispatch;
pub mod error;
pub mod host;
pub mod manager;
pub mod ply;
pub mod session;
pub mod splat;
pub mod uniform;
pub mod word;
pub mod worker;

pub use splat::{GaussianSplat, Surfel};
