//! Tests of read/write outcomes, typed decoding, and the handle lifecycle.

use memhack::errors::MemHackError;
use memhack::handle::HookHandle;
use memhack::memory::{
    decode_value, read_array_outcome, read_outcome, typed_read_outcome, write_outcome,
};

#[test]
fn complete_read_returns_exactly_the_requested_bytes() {
    let buffer = vec![1u8, 2, 3, 4];
    let got = read_outcome(0x1000, 4, buffer.clone(), true).unwrap();
    assert_eq!(got.len(), 4);
    assert_eq!(got, buffer);
}

#[test]
fn incomplete_read_returns_no_buffer_at_all() {
    match read_outcome(0x1000, 4, vec![1u8, 2, 3, 4], false) {
        Err(MemHackError::MemoryReadError { address, bytes_to_read }) => {
            assert_eq!(address, 0x1000);
            assert_eq!(bytes_to_read, 4);
        }
        other => panic!("expected MemoryReadError, got {:?}", other),
    }
}

#[test]
fn fixed_size_read_has_the_same_semantics() {
    let buffer = [9u8, 8, 7, 6];
    assert_eq!(read_array_outcome(0x2000, buffer, true).unwrap(), buffer);
    match read_array_outcome(0x2000, buffer, false) {
        Err(MemHackError::MemoryReadError { address, bytes_to_read }) => {
            assert_eq!(address, 0x2000);
            assert_eq!(bytes_to_read, 4);
        }
        other => panic!("expected MemoryReadError, got {:?}", other),
    }
}

#[test]
fn write_is_all_or_nothing() {
    assert!(write_outcome(0x3000, 16, true).is_ok());
    match write_outcome(0x3000, 5, false) {
        Err(MemHackError::MemoryWriteError { address, bytes_written }) => {
            assert_eq!(address, 0x3000);
            assert_eq!(bytes_written, 5);
        }
        other => panic!("expected MemoryWriteError, got {:?}", other),
    }
}

#[test]
fn decoding_failure_looks_like_a_failed_read() {
    let good = vec![0x78u8, 0x56, 0x34, 0x12];
    assert_eq!(decode_value::<u32>(0x4000, &good).unwrap(), 0x12345678);
    let short = vec![0x78u8, 0x56];
    match decode_value::<u32>(0x4000, &short) {
        Err(MemHackError::MemoryReadError { address, bytes_to_read }) => {
            assert_eq!(address, 0x4000);
            assert_eq!(bytes_to_read, 4);
        }
        other => panic!("expected MemoryReadError, got {:?}", other),
    }
}

#[test]
fn typed_read_combines_transfer_and_decoding() {
    let image = vec![0xefu8, 0xbe, 0xad, 0xde];
    assert_eq!(typed_read_outcome::<u32>(0x5000, image.clone(), true).unwrap(), 0xdead_beef);
    match typed_read_outcome::<u32>(0x5000, image, false) {
        Err(MemHackError::MemoryReadError { address, bytes_to_read }) => {
            assert_eq!(address, 0x5000);
            assert_eq!(bytes_to_read, 4);
        }
        other => panic!("expected MemoryReadError, got {:?}", other),
    }
}

#[test]
fn handle_judges_acquisition_and_closes_once() {
    match HookHandle::from_raw(0) {
        Err(MemHackError::CreateHookError) => {}
        other => panic!("expected CreateHookError, got {:?}", other),
    }

    let mut h = HookHandle::from_raw(0x1234).unwrap();
    assert_eq!(h.os_handle().unwrap(), 0x1234);
    assert_eq!(h.close().unwrap(), 0x1234);
    match h.os_handle() {
        Err(MemHackError::HandleClosedError) => {}
        other => panic!("expected HandleClosedError, got {:?}", other),
    }
    match h.close() {
        Err(MemHackError::HandleClosedError) => {}
        other => panic!("expected HandleClosedError, got {:?}", other),
    }
}
