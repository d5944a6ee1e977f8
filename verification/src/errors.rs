//! The closed set of failures that the library reports.

use vstd::prelude::*;

verus! {

/// Every operation that can fail returns exactly one of these kinds, carrying
/// enough context (address, requested length, requested name) to diagnose the
/// failure without inspecting OS-specific error codes.
#[derive(Debug)]
pub enum MemHackError {
    /// A process handle could not be obtained: the OS denied the request, the
    /// process does not exist, or no snapshot entry matched the requested name.
    CreateHookError,
    /// An operation was attempted on a handle that was already released.
    HandleClosedError,
    /// No loaded module matched the requested file name; the requested name is
    /// carried back verbatim.
    ModuleNotFound(Vec<u8>),
    /// The OS could not supply the full requested range of bytes, or the bytes
    /// it supplied did not decode into the requested type.
    MemoryReadError { address: usize, bytes_to_read: usize },
    /// The OS could not commit the full buffer; `bytes_written` is diagnostic
    /// only and the write counts as failed as a whole.
    MemoryWriteError { address: usize, bytes_written: usize },
}

} // verus!
