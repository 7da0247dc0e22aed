//! Result codes of the portable timer service.
//!
//! The timer service itself drives a caller-supplied callback from a
//! background thread on a fixed resolution; that machinery stands outside
//! the library, which holds only the typed codes it reports.

use vstd::prelude::*;

verus! {

/// Result codes of the portable timer layer.
#[derive(Debug, Clone, Copy, PartialEq, Eq, Structural)]
pub enum PtError {
    /// Success.
    PtNoError,
    /// A system-specific error occurred.
    PtHostError,
    /// Cannot start the timer because it is already started.
    PtAlreadyStarted,
    /// Cannot stop the timer because it is already stopped.
    PtAlreadyStopped,
    /// Memory could not be allocated.
    PtInsufficientMemory,
}

} // verus!
