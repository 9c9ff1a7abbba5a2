//! The error taxonomy of the crate.
//!
//! Communication errors carry the transport's opaque payload and are always
//! propagated, never retried here. Decode errors are a hard failure of that
//! single operation. Persistence policy errors are expected, recoverable
//! conditions: the caller can fix the precondition and retry.

use crate::configuration;
use crate::status;
use vstd::prelude::*;

verus! {

/// All possible errors of the driver's operations.
#[derive(Debug, Clone, Copy, PartialEq, Eq)]
pub enum Error<E> {
    /// Bus communication error, carrying the transport's opaque error.
    Communication(E),
    /// Magnet status parsing error.
    Status(status::Error),
    /// Configuration parsing error.
    Configuration(configuration::Error),
    /// Position settings can only be persisted three times.
    MaximumPositionPersistsReached,
    /// A detected magnet is required for the persistence action.
    MagnetRequired,
    /// No persistent write of the maximum angle and configuration registers
    /// is available any more.
    MangConfigPersistenceExhausted,
}

} // verus!
