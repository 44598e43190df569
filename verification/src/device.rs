//! Computation device selection.
//!
//! The crate only decides *which* device a caller asked for; creating the
//! backend device object and probing the machine for accelerators belong to
//! the compute engine and stay outside the verified library.

use vstd::prelude::*;

verus! {

/// Enum representing different types of devices available for computation.
#[derive(Clone, Debug, PartialEq, Eq, Structural)]
pub enum Device {
    /// The CPU device.
    CPU,
    /// A CUDA device with a specific index.
    Cuda(usize),
    /// A Metal device with a specific index.
    Metal(usize),
}

} // verus!
