//! Ownership state of the OS-level process handle.
//!
//! The raw handle value is acquired and released by the unverified front end;
//! this module decides whether an acquisition succeeded, guards every use of
//! the handle against use-after-release, and makes release a one-shot step.

use vstd::prelude::*;

use crate::errors::MemHackError;

verus! {

/// The value the OS returns for a failed handle acquisition.
pub const INVALID_HANDLE: isize = 0;

/// An exclusively owned process handle together with its release state.
///
/// The handle is valid from construction until `close` succeeds once; after
/// that every access reports `HandleClosedError` instead of touching the OS.
#[derive(Debug)]
pub struct HookHandle {
    /// The raw OS handle value; never `INVALID_HANDLE` for a constructed handle.
    pub raw: isize,
    /// Whether the handle still owns the OS resource.
    pub open: bool,
}

impl HookHandle {
    /// Judge the outcome of a handle acquisition: the OS signals failure by
    /// returning the invalid handle value, which becomes `CreateHookError`.
    pub fn from_raw(raw: isize) -> (r: Result<HookHandle, MemHackError>)
        ensures
            match r {
                Ok(h) => raw != INVALID_HANDLE && h.raw == raw && h.open,
                Err(e) => raw == INVALID_HANDLE && e == MemHackError::CreateHookError,
            },
    {
        if raw == INVALID_HANDLE {
            Err(MemHackError::CreateHookError)
        } else {
            Ok(HookHandle { raw, open: true })
        }
    }

    /// Hand out the raw handle value for an OS call, refusing once the handle
    /// has been released.
    pub fn os_handle(&self) -> (r: Result<isize, MemHackError>)
        ensures
            match r {
                Ok(v) => self.open && v == self.raw,
                Err(e) => !self.open && e == MemHackError::HandleClosedError,
            },
    {
        if self.open {
            Ok(self.raw)
        } else {
            Err(MemHackError::HandleClosedError)
        }
    }

    /// Release the handle exactly once: the first call yields the raw value so
    /// the front end can return it to the OS, every later call reports
    /// `HandleClosedError` and changes nothing.
    pub fn close(&mut self) -> (r: Result<isize, MemHackError>)
        ensures
            match r {
                Ok(v) => {
                    &&& old(self).open
                    &&& v == old(self).raw
                    &&& !final(self).open
                    &&& final(self).raw == old(self).raw
                },
                Err(e) => {
                    &&& !old(self).open
                    &&& e == MemHackError::HandleClosedError
                    &&& *final(self) == *old(self)
                },
            },
    {
        if self.open {
            self.open = false;
            Ok(self.raw)
        } else {
            Err(MemHackError::HandleClosedError)
        }
    }
}

} // verus!
