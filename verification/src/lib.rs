//! Verified core of a process-memory inspection library.
//!
//! The library models the logic of attaching to a running process, resolving
//! the base address of a loaded module, walking multi-level pointer chains,
//! and marshalling fixed-size values to and from little-endian byte images.
//! The operating-system calls themselves (opening a process, snapshotting the
//! process list, reading and writing another address space) are performed by
//! an unverified front end, which feeds their raw outcomes into the verified
//! decision functions found here.

pub mod chain;
pub mod codec;
pub mod errors;
pub mod handle;
pub mod memory;
pub mod modules;
pub mod process;
