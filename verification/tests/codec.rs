//! Round-trip and byte-layout tests for the little-endian value codecs.

use memhack::codec::{FromBytes, ToBytes};

#[test]
fn u8_round_trip() {
    for v in [0u8, 1, 0x7f, 0x80, 0xff] {
        let bytes = v.to_bytes();
        assert_eq!(bytes, vec![v]);
        assert_eq!(u8::from_bytes(&bytes), Some(v));
    }
}

#[test]
fn u16_round_trip_and_layout() {
    for v in [0u16, 1, 0x1234, 0x8000, u16::MAX] {
        let bytes = v.to_bytes();
        assert_eq!(bytes, v.to_le_bytes().to_vec());
        assert_eq!(u16::from_bytes(&bytes), Some(v));
    }
    assert_eq!((0xbeefu16).to_bytes(), vec![0xef, 0xbe]);
}

#[test]
fn u32_round_trip_and_layout() {
    for v in [0u32, 1, 0x12345678, 0x8000_0000, u32::MAX] {
        let bytes = v.to_bytes();
        assert_eq!(bytes, v.to_le_bytes().to_vec());
        assert_eq!(u32::from_bytes(&bytes), Some(v));
    }
    assert_eq!((0x12345678u32).to_bytes(), vec![0x78, 0x56, 0x34, 0x12]);
}

#[test]
fn u64_round_trip_and_layout() {
    for v in [0u64, 1, 0x0123_4567_89ab_cdef, 0x8000_0000_0000_0000, u64::MAX] {
        let bytes = v.to_bytes();
        assert_eq!(bytes, v.to_le_bytes().to_vec());
        assert_eq!(u64::from_bytes(&bytes), Some(v));
    }
    assert_eq!(
        (0x0123_4567_89ab_cdefu64).to_bytes(),
        vec![0xef, 0xcd, 0xab, 0x89, 0x67, 0x45, 0x23, 0x01]
    );
}

#[test]
fn i8_round_trip_and_layout() {
    for v in [i8::MIN, -1, 0, 1, i8::MAX] {
        let bytes = v.to_bytes();
        assert_eq!(bytes, v.to_le_bytes().to_vec());
        assert_eq!(i8::from_bytes(&bytes), Some(v));
    }
    assert_eq!((-1i8).to_bytes(), vec![0xff]);
}

#[test]
fn i16_round_trip_and_layout() {
    for v in [i16::MIN, -2, -1, 0, 1, 0x1234, i16::MAX] {
        let bytes = v.to_bytes();
        assert_eq!(bytes, v.to_le_bytes().to_vec());
        assert_eq!(i16::from_bytes(&bytes), Some(v));
    }
}

#[test]
fn i32_round_trip_and_layout() {
    for v in [i32::MIN, -2, -1, 0, 1, 0x1234_5678, i32::MAX] {
        let bytes = v.to_bytes();
        assert_eq!(bytes, v.to_le_bytes().to_vec());
        assert_eq!(i32::from_bytes(&bytes), Some(v));
    }
    assert_eq!((-2i32).to_bytes(), vec![0xfe, 0xff, 0xff, 0xff]);
}

#[test]
fn i64_round_trip_and_layout() {
    for v in [i64::MIN, -2, -1, 0, 1, 0x0123_4567_89ab_cdef, i64::MAX] {
        let bytes = v.to_bytes();
        assert_eq!(bytes, v.to_le_bytes().to_vec());
        assert_eq!(i64::from_bytes(&bytes), Some(v));
    }
}

#[test]
fn wrong_length_never_decodes() {
    let bytes = vec![0u8; 16];
    assert_eq!(u8::from_bytes(&bytes[..0]), None);
    assert_eq!(u8::from_bytes(&bytes[..2]), None);
    assert_eq!(u16::from_bytes(&bytes[..1]), None);
    assert_eq!(u16::from_bytes(&bytes[..4]), None);
    assert_eq!(u32::from_bytes(&bytes[..3]), None);
    assert_eq!(u32::from_bytes(&bytes[..8]), None);
    assert_eq!(u64::from_bytes(&bytes[..7]), None);
    assert_eq!(u64::from_bytes(&bytes[..16]), None);
    assert_eq!(i8::from_bytes(&bytes[..0]), None);
    assert_eq!(i16::from_bytes(&bytes[..3]), None);
    assert_eq!(i32::from_bytes(&bytes[..5]), None);
    assert_eq!(i64::from_bytes(&bytes[..9]), None);
}

#[test]
fn byte_sizes_match_os_sizes() {
    assert_eq!(u8::byte_size(), std::mem::size_of::<u8>());
    assert_eq!(u16::byte_size(), std::mem::size_of::<u16>());
    assert_eq!(u32::byte_size(), std::mem::size_of::<u32>());
    assert_eq!(u64::byte_size(), std::mem::size_of::<u64>());
    assert_eq!(i8::byte_size(), std::mem::size_of::<i8>());
    assert_eq!(i16::byte_size(), std::mem::size_of::<i16>());
    assert_eq!(i32::byte_size(), std::mem::size_of::<i32>());
    assert_eq!(i64::byte_size(), std::mem::size_of::<i64>());
}
