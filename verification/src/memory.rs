//! Outcomes of raw and typed memory accesses.
//!
//! The OS primitives "read process memory" and "write process memory" are
//! performed by the unverified front end and report a completion flag (plus,
//! for writes, how many bytes were committed).  The functions here turn those
//! raw outcomes into the library's all-or-nothing results: a read yields
//! either exactly the requested bytes or a `MemoryReadError`, never a shorter
//! buffer; a write yields either full success or a `MemoryWriteError`, never
//! a partial success.

use vstd::prelude::*;

use crate::codec::FromBytes;
use crate::errors::MemHackError;

verus! {

/// Judge a raw read: `complete` is the OS report that the full requested
/// range was transferred into `buffer`.  Only then is the buffer handed out,
/// and it carries exactly `requested` bytes.
pub fn read_outcome(address: usize, requested: usize, buffer: Vec<u8>, complete: bool) -> (r: Result<
    Vec<u8>,
    MemHackError,
>)
    requires
        buffer@.len() == requested,
    ensures
        match r {
            Ok(b) => complete && b == buffer && b@.len() == requested,
            Err(e) => !complete && e == (MemHackError::MemoryReadError {
                address,
                bytes_to_read: requested,
            }),
        },
{
    if complete {
        Ok(buffer)
    } else {
        Err(MemHackError::MemoryReadError { address, bytes_to_read: requested })
    }
}

/// Judge a raw fixed-size read into a stack buffer, with the same
/// all-or-nothing semantics as `read_outcome`.
pub fn read_array_outcome<const N: usize>(address: usize, buffer: [u8; N], complete: bool) -> (r:
    Result<[u8; N], MemHackError>)
    ensures
        match r {
            Ok(b) => complete && b == buffer && b@.len() == N,
            Err(e) => !complete && e == (MemHackError::MemoryReadError {
                address,
                bytes_to_read: N,
            }),
        },
{
    if complete {
        Ok(buffer)
    } else {
        Err(MemHackError::MemoryReadError { address, bytes_to_read: N })
    }
}

/// Judge a raw write: `complete` is the OS report that the whole buffer was
/// committed.  Anything less is a failure as a whole; `bytes_written` is
/// carried for diagnosis only.
pub fn write_outcome(address: usize, bytes_written: usize, complete: bool) -> (r: Result<
    (),
    MemHackError,
>)
    ensures
        match r {
            Ok(u) => complete,
            Err(e) => !complete && e == (MemHackError::MemoryWriteError {
                address,
                bytes_written,
            }),
        },
{
    if complete {
        Ok(())
    } else {
        Err(MemHackError::MemoryWriteError { address, bytes_written })
    }
}

/// Decode the bytes a read produced into a typed value.  A failure to decode
/// is reported exactly like a failed read of `T`'s size at that address: the
/// caller cannot obtain a valid `T` there either way.
pub fn decode_value<T: FromBytes>(address: usize, bytes: &Vec<u8>) -> (r: Result<T, MemHackError>)
    ensures
        match r {
            Ok(v) => T::spec_decode(bytes@) == Some(v),
            Err(e) => T::spec_decode(bytes@) is None && e == (MemHackError::MemoryReadError {
                address,
                bytes_to_read: T::spec_size() as usize,
            }),
        },
{
    match T::from_bytes(bytes.as_slice()) {
        Some(v) => Ok(v),
        None => Err(MemHackError::MemoryReadError { address, bytes_to_read: T::byte_size() }),
    }
}

/// Judge a typed read in one step: the buffer the OS filled for a read of
/// `T`'s size at `address`, together with the OS completion flag, become
/// either the decoded value or a `MemoryReadError` carrying that address and
/// size.  An incomplete transfer and an undecodable image are deliberately
/// not distinguished.
pub fn typed_read_outcome<T: FromBytes>(address: usize, buffer: Vec<u8>, complete: bool) -> (r:
    Result<T, MemHackError>)
    requires
        buffer@.len() == T::spec_size(),
    ensures
        match r {
            Ok(v) => complete && T::spec_decode(buffer@) == Some(v),
            Err(e) => {
                &&& !complete || T::spec_decode(buffer@) is None
                &&& e == (MemHackError::MemoryReadError {
                    address,
                    bytes_to_read: T::spec_size() as usize,
                })
            },
        },
{
    let requested = buffer.len();
    match read_outcome(address, requested, buffer, complete) {
        Ok(b) => decode_value::<T>(address, &b),
        Err(e) => Err(e),
    }
}

} // verus!
