//! The failures this crate reports.  None is retried internally: each
//! surfaces to the caller the first time it occurs.

use vstd::prelude::*;

verus! {

/// The input bytes are not framed as a point-cloud file.
#[derive(Clone, Copy, Debug, PartialEq, Eq)]
pub enum FormatError {
    /// The token that ends the textual header does not occur.
    MissingHeaderEnd,
}

/// An accessor was given an index at or beyond the number of elements.
#[derive(Clone, Copy, Debug, PartialEq, Eq)]
pub struct IndexError {
    /// The index that was asked for.
    pub index: usize,
    /// The number of elements there are.
    pub len: usize,
}

/// The accelerator could not be acquired or cannot take the work.
#[derive(Clone, Copy, Debug, PartialEq, Eq)]
pub enum BackendError {
    /// No adapter passes the selection policy.
    NoAdapter,
    /// The selected adapter refused to create a device.
    DeviceRequest,
    /// A buffer or the dispatch would exceed what the device allows.
    LimitsExceeded,
}

/// The results could not be brought back from the accelerator.
#[derive(Clone, Copy, Debug, PartialEq, Eq)]
pub enum ReadbackError {
    /// Mapping the staging buffer failed or never completed.
    MapFailed,
    /// The mapped bytes are not as many as the output buffer holds.
    SizeMismatch,
}

/// Why an accelerated computation failed.
#[derive(Clone, Copy, Debug, PartialEq, Eq)]
pub enum ComputeError {
    /// Acquisition or dispatch failed.
    Backend(BackendError),
    /// Readback failed.
    Readback(ReadbackError),
}

impl FormatError {
    /// What went wrong, in words.
    pub fn message(&self) -> (text: &'static str)
        ensures
            text@ == "Invalid PLY header"@,
    {
        "Invalid PLY header"
    }
}

impl IndexError {
    /// What went wrong, in words.
    pub fn message(&self) -> (text: &'static str)
        ensures
            text@ == "Index out of bounds"@,
    {
        "Index out of bounds"
    }
}

impl BackendError {
    /// What went wrong, in words.
    pub fn message(&self) -> (text: &'static str)
        ensures
            text@ == match *self {
                BackendError::NoAdapter => "Failed to find GPU adapter"@,
                BackendError::DeviceRequest => "Failed to create device"@,
                BackendError::LimitsExceeded => "Input exceeds device limits"@,
            },
    {
        match self {
            BackendError::NoAdapter => "Failed to find GPU adapter",
            BackendError::DeviceRequest => "Failed to create device",
            BackendError::LimitsExceeded => "Input exceeds device limits",
        }
    }
}

impl ReadbackError {
    /// What went wrong, in words.
    pub fn message(&self) -> (text: &'static str)
        ensures
            text@ == match *self {
                ReadbackError::MapFailed => "Failed to map buffer"@,
                ReadbackError::SizeMismatch => "Mapped buffer has the wrong size"@,
            },
    {
        match self {
            ReadbackError::MapFailed => "Failed to map buffer",
            ReadbackError::SizeMismatch => "Mapped buffer has the wrong size",
        }
    }
}

impl ComputeError {
    /// What went wrong, in words.
    pub fn message(&self) -> (text: &'static str)
        ensures
            text@ == match *self {
                ComputeError::Backend(e) => match e {
                    BackendError::NoAdapter => "Failed to find GPU adapter"@,
                    BackendError::DeviceRequest => "Failed to create device"@,
                    BackendError::LimitsExceeded => "Input exceeds device limits"@,
                },
                ComputeError::Readback(e) => match e {
                    ReadbackError::MapFailed => "Failed to map buffer"@,
                    ReadbackError::SizeMismatch => "Mapped buffer has the wrong size"@,
                },
            },
    {
        match self {
            ComputeError::Backend(e) => e.message(),
            ComputeError::Readback(e) => e.message(),
        }
    }
}

} // verus!
