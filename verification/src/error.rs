//! The kinds of failure the engine reports.

use vstd::prelude::*;

verus! {

/// Why an operation, or a step of one, did not produce a result.
#[derive(Clone, Copy, Debug, PartialEq, Eq, Structural)]
pub enum ErrorKind {
    /// A caller-supplied parameter has the wrong size; nothing was started.
    InvalidInput,
    /// A device answered with bytes that do not follow the expected layout.
    FormatError,
    /// Talking to a device, or to the hot-plug monitor, failed.
    TransportError,
    /// The operation was cancelled by its owner.
    Cancelled,
    /// The operation ran past its deadline.
    TimedOut,
    /// The key the user touched does not know the key handle.
    InvalidKey,
}

} // verus!
