//! Marshalling of fixed-size values to and from little-endian byte images.
//!
//! One byte order — little-endian, the convention of the target platform — is
//! fixed for the whole library and used uniformly by encoding and decoding.
//! Decoding demands a byte image of exactly the type's size: a wrong length
//! never decodes, so a mismatched read surfaces as an error instead of a
//! silent truncation or padding.
//!
//! Signed types are laid out as the two's-complement image of their width, so
//! they share the byte-level codecs of the unsigned types.

use vstd::bytes::*;
use vstd::prelude::*;

verus! {

/// A fixed-size value that can be reconstructed from its little-endian byte
/// image.
pub trait FromBytes: Sized {
    /// The exact number of bytes in this type's byte image.
    spec fn spec_size() -> nat;

    /// What `from_bytes` returns for any byte sequence.
    spec fn spec_decode(bytes: Seq<u8>) -> Option<Self>;

    /// The number of bytes `from_bytes` expects, as a run-time value.
    fn byte_size() -> (n: usize)
        ensures
            n == Self::spec_size(),
    ;

    /// Decode a value from its little-endian byte image.
    fn from_bytes(bytes: &[u8]) -> (r: Option<Self>)
        ensures
            r == Self::spec_decode(bytes@),
    ;

    /// A byte sequence of the wrong length never decodes.
    proof fn lemma_wrong_len_fails(bytes: Seq<u8>)
        ensures
            bytes.len() != Self::spec_size() ==> Self::spec_decode(bytes) is None,
    ;
}

/// A fixed-size value that can be laid out as a little-endian byte image.
pub trait ToBytes: Sized {
    /// The little-endian byte image of this value.
    spec fn spec_encode(&self) -> Seq<u8>;

    /// Produce the little-endian byte image of this value.
    fn to_bytes(&self) -> (r: Vec<u8>)
        ensures
            r@ == self.spec_encode(),
    ;
}

/// The laws tying the two directions together: every value survives a round
/// trip through its byte image, and the image has exactly the declared size.
pub trait Codec: FromBytes + ToBytes {
    /// Round trip: decoding an encoded value yields the value back.
    proof fn lemma_round_trip(&self)
        ensures
            Self::spec_decode(self.spec_encode()) == Some(*self),
    ;

    /// An encoded value occupies exactly the declared number of bytes.
    proof fn lemma_encode_len(&self)
        ensures
            self.spec_encode().len() == Self::spec_size(),
    ;
}

// ---------- unsigned widths ----------

impl FromBytes for u8 {
    open spec fn spec_size() -> nat {
        1
    }

    open spec fn spec_decode(bytes: Seq<u8>) -> Option<u8> {
        if bytes.len() == 1 {
            Some(bytes[0])
        } else {
            None
        }
    }

    fn byte_size() -> usize {
        1
    }

    fn from_bytes(bytes: &[u8]) -> Option<u8> {
        if bytes.len() == 1 {
            Some(bytes[0])
        } else {
            None
        }
    }

    proof fn lemma_wrong_len_fails(bytes: Seq<u8>) {
    }
}

impl ToBytes for u8 {
    open spec fn spec_encode(&self) -> Seq<u8> {
        seq![*self]
    }

    fn to_bytes(&self) -> (r: Vec<u8>) {
        let mut r: Vec<u8> = Vec::new();
        r.push(*self);
        proof {
            assert(r@ =~= seq![*self]);
        }
        r
    }
}

impl Codec for u8 {
    proof fn lemma_round_trip(&self) {
        assert(self.spec_encode()[0] == *self);
    }

    proof fn lemma_encode_len(&self) {
    }
}

impl FromBytes for u16 {
    open spec fn spec_size() -> nat {
        2
    }

    open spec fn spec_decode(bytes: Seq<u8>) -> Option<u16> {
        if bytes.len() == 2 {
            Some(spec_u16_from_le_bytes(bytes))
        } else {
            None
        }
    }

    fn byte_size() -> usize {
        2
    }

    fn from_bytes(bytes: &[u8]) -> Option<u16> {
        if bytes.len() == 2 {
            Some(u16_from_le_bytes(bytes))
        } else {
            None
        }
    }

    proof fn lemma_wrong_len_fails(bytes: Seq<u8>) {
    }
}

impl ToBytes for u16 {
    open spec fn spec_encode(&self) -> Seq<u8> {
        spec_u16_to_le_bytes(*self)
    }

    fn to_bytes(&self) -> (r: Vec<u8>) {
        u16_to_le_bytes(*self)
    }
}

impl Codec for u16 {
    proof fn lemma_round_trip(&self) {
        lemma_auto_spec_u16_to_from_le_bytes();
    }

    proof fn lemma_encode_len(&self) {
        lemma_auto_spec_u16_to_from_le_bytes();
    }
}

impl FromBytes for u32 {
    open spec fn spec_size() -> nat {
        4
    }

    open spec fn spec_decode(bytes: Seq<u8>) -> Option<u32> {
        if bytes.len() == 4 {
            Some(spec_u32_from_le_bytes(bytes))
        } else {
            None
        }
    }

    fn byte_size() -> usize {
        4
    }

    fn from_bytes(bytes: &[u8]) -> Option<u32> {
        if bytes.len() == 4 {
            Some(u32_from_le_bytes(bytes))
        } else {
            None
        }
    }

    proof fn lemma_wrong_len_fails(bytes: Seq<u8>) {
    }
}

impl ToBytes for u32 {
    open spec fn spec_encode(&self) -> Seq<u8> {
        spec_u32_to_le_bytes(*self)
    }

    fn to_bytes(&self) -> (r: Vec<u8>) {
        u32_to_le_bytes(*self)
    }
}

impl Codec for u32 {
    proof fn lemma_round_trip(&self) {
        lemma_auto_spec_u32_to_from_le_bytes();
    }

    proof fn lemma_encode_len(&self) {
        lemma_auto_spec_u32_to_from_le_bytes();
    }
}

impl FromBytes for u64 {
    open spec fn spec_size() -> nat {
        8
    }

    open spec fn spec_decode(bytes: Seq<u8>) -> Option<u64> {
        if bytes.len() == 8 {
            Some(spec_u64_from_le_bytes(bytes))
        } else {
            None
        }
    }

    fn byte_size() -> usize {
        8
    }

    fn from_bytes(bytes: &[u8]) -> Option<u64> {
        if bytes.len() == 8 {
            Some(u64_from_le_bytes(bytes))
        } else {
            None
        }
    }

    proof fn lemma_wrong_len_fails(bytes: Seq<u8>) {
    }
}

impl ToBytes for u64 {
    open spec fn spec_encode(&self) -> Seq<u8> {
        spec_u64_to_le_bytes(*self)
    }

    fn to_bytes(&self) -> (r: Vec<u8>) {
        u64_to_le_bytes(*self)
    }
}

impl Codec for u64 {
    proof fn lemma_round_trip(&self) {
        lemma_auto_spec_u64_to_from_le_bytes();
    }

    proof fn lemma_encode_len(&self) {
        lemma_auto_spec_u64_to_from_le_bytes();
    }
}

// ---------- two's-complement reinterpretation ----------

/// The signed value whose two's-complement 8-bit image is `u`.
pub open spec fn spec_signed_8(u: u8) -> i8 {
    if u < 0x80 {
        u as i8
    } else {
        (u as int - 0x100) as i8
    }
}

/// The 8-bit two's-complement image of `v`.
pub open spec fn spec_unsigned_8(v: i8) -> u8 {
    if v >= 0 {
        v as u8
    } else {
        (v as int + 0x100) as u8
    }
}

/// The signed value whose two's-complement 16-bit image is `u`.
pub open spec fn spec_signed_16(u: u16) -> i16 {
    if u < 0x8000 {
        u as i16
    } else {
        (u as int - 0x1_0000) as i16
    }
}

/// The 16-bit two's-complement image of `v`.
pub open spec fn spec_unsigned_16(v: i16) -> u16 {
    if v >= 0 {
        v as u16
    } else {
        (v as int + 0x1_0000) as u16
    }
}

/// The signed value whose two's-complement 32-bit image is `u`.
pub open spec fn spec_signed_32(u: u32) -> i32 {
    if u < 0x8000_0000 {
        u as i32
    } else {
        (u as int - 0x1_0000_0000) as i32
    }
}

/// The 32-bit two's-complement image of `v`.
pub open spec fn spec_unsigned_32(v: i32) -> u32 {
    if v >= 0 {
        v as u32
    } else {
        (v as int + 0x1_0000_0000) as u32
    }
}

/// The signed value whose two's-complement 64-bit image is `u`.
pub open spec fn spec_signed_64(u: u64) -> i64 {
    if u < 0x8000_0000_0000_0000 {
        u as i64
    } else {
        (u as int - 0x1_0000_0000_0000_0000) as i64
    }
}

/// The 64-bit two's-complement image of `v`.
pub open spec fn spec_unsigned_64(v: i64) -> u64 {
    if v >= 0 {
        v as u64
    } else {
        (v as int + 0x1_0000_0000_0000_0000) as u64
    }
}

fn signed_8(u: u8) -> (r: i8)
    ensures
        r == spec_signed_8(u),
{
    if u < 0x80 {
        u as i8
    } else {
        i8::MIN + ((u - 0x80) as i8)
    }
}

fn unsigned_8(v: i8) -> (r: u8)
    ensures
        r == spec_unsigned_8(v),
{
    if v >= 0 {
        v as u8
    } else {
        0x80u8 + ((v - i8::MIN) as u8)
    }
}

fn signed_16(u: u16) -> (r: i16)
    ensures
        r == spec_signed_16(u),
{
    if u < 0x8000 {
        u as i16
    } else {
        i16::MIN + ((u - 0x8000) as i16)
    }
}

fn unsigned_16(v: i16) -> (r: u16)
    ensures
        r == spec_unsigned_16(v),
{
    if v >= 0 {
        v as u16
    } else {
        0x8000u16 + ((v - i16::MIN) as u16)
    }
}

fn signed_32(u: u32) -> (r: i32)
    ensures
        r == spec_signed_32(u),
{
    if u < 0x8000_0000 {
        u as i32
    } else {
        i32::MIN + ((u - 0x8000_0000) as i32)
    }
}

fn unsigned_32(v: i32) -> (r: u32)
    ensures
        r == spec_unsigned_32(v),
{
    if v >= 0 {
        v as u32
    } else {
        0x8000_0000u32 + ((v - i32::MIN) as u32)
    }
}

fn signed_64(u: u64) -> (r: i64)
    ensures
        r == spec_signed_64(u),
{
    if u < 0x8000_0000_0000_0000 {
        u as i64
    } else {
        i64::MIN + ((u - 0x8000_0000_0000_0000) as i64)
    }
}

fn unsigned_64(v: i64) -> (r: u64)
    ensures
        r == spec_unsigned_64(v),
{
    if v >= 0 {
        v as u64
    } else {
        0x8000_0000_0000_0000u64 + ((v - i64::MIN) as u64)
    }
}

// ---------- signed widths ----------

impl FromBytes for i8 {
    open spec fn spec_size() -> nat {
        1
    }

    open spec fn spec_decode(bytes: Seq<u8>) -> Option<i8> {
        if bytes.len() == 1 {
            Some(spec_signed_8(bytes[0]))
        } else {
            None
        }
    }

    fn byte_size() -> usize {
        1
    }

    fn from_bytes(bytes: &[u8]) -> Option<i8> {
        if bytes.len() == 1 {
            Some(signed_8(bytes[0]))
        } else {
            None
        }
    }

    proof fn lemma_wrong_len_fails(bytes: Seq<u8>) {
    }
}

impl ToBytes for i8 {
    open spec fn spec_encode(&self) -> Seq<u8> {
        seq![spec_unsigned_8(*self)]
    }

    fn to_bytes(&self) -> (r: Vec<u8>) {
        let mut r: Vec<u8> = Vec::new();
        r.push(unsigned_8(*self));
        proof {
            assert(r@ =~= seq![spec_unsigned_8(*self)]);
        }
        r
    }
}

impl Codec for i8 {
    proof fn lemma_round_trip(&self) {
        assert(self.spec_encode()[0] == spec_unsigned_8(*self));
    }

    proof fn lemma_encode_len(&self) {
    }
}

impl FromBytes for i16 {
    open spec fn spec_size() -> nat {
        2
    }

    open spec fn spec_decode(bytes: Seq<u8>) -> Option<i16> {
        if bytes.len() == 2 {
            Some(spec_signed_16(spec_u16_from_le_bytes(bytes)))
        } else {
            None
        }
    }

    fn byte_size() -> usize {
        2
    }

    fn from_bytes(bytes: &[u8]) -> Option<i16> {
        if bytes.len() == 2 {
            Some(signed_16(u16_from_le_bytes(bytes)))
        } else {
            None
        }
    }

    proof fn lemma_wrong_len_fails(bytes: Seq<u8>) {
    }
}

impl ToBytes for i16 {
    open spec fn spec_encode(&self) -> Seq<u8> {
        spec_u16_to_le_bytes(spec_unsigned_16(*self))
    }

    fn to_bytes(&self) -> (r: Vec<u8>) {
        u16_to_le_bytes(unsigned_16(*self))
    }
}

impl Codec for i16 {
    proof fn lemma_round_trip(&self) {
        lemma_auto_spec_u16_to_from_le_bytes();
    }

    proof fn lemma_encode_len(&self) {
        lemma_auto_spec_u16_to_from_le_bytes();
    }
}

impl FromBytes for i32 {
    open spec fn spec_size() -> nat {
        4
    }

    open spec fn spec_decode(bytes: Seq<u8>) -> Option<i32> {
        if bytes.len() == 4 {
            Some(spec_signed_32(spec_u32_from_le_bytes(bytes)))
        } else {
            None
        }
    }

    fn byte_size() -> usize {
        4
    }

    fn from_bytes(bytes: &[u8]) -> Option<i32> {
        if bytes.len() == 4 {
            Some(signed_32(u32_from_le_bytes(bytes)))
        } else {
            None
        }
    }

    proof fn lemma_wrong_len_fails(bytes: Seq<u8>) {
    }
}

impl ToBytes for i32 {
    open spec fn spec_encode(&self) -> Seq<u8> {
        spec_u32_to_le_bytes(spec_unsigned_32(*self))
    }

    fn to_bytes(&self) -> (r: Vec<u8>) {
        u32_to_le_bytes(unsigned_32(*self))
    }
}

impl Codec for i32 {
    proof fn lemma_round_trip(&self) {
        lemma_auto_spec_u32_to_from_le_bytes();
    }

    proof fn lemma_encode_len(&self) {
        lemma_auto_spec_u32_to_from_le_bytes();
    }
}

impl FromBytes for i64 {
    open spec fn spec_size() -> nat {
        8
    }

    open spec fn spec_decode(bytes: Seq<u8>) -> Option<i64> {
        if bytes.len() == 8 {
            Some(spec_signed_64(spec_u64_from_le_bytes(bytes)))
        } else {
            None
        }
    }

    fn byte_size() -> usize {
        8
    }

    fn from_bytes(bytes: &[u8]) -> Option<i64> {
        if bytes.len() == 8 {
            Some(signed_64(u64_from_le_bytes(bytes)))
        } else {
            None
        }
    }

    proof fn lemma_wrong_len_fails(bytes: Seq<u8>) {
    }
}

impl ToBytes for i64 {
    open spec fn spec_encode(&self) -> Seq<u8> {
        spec_u64_to_le_bytes(spec_unsigned_64(*self))
    }

    fn to_bytes(&self) -> (r: Vec<u8>) {
        u64_to_le_bytes(unsigned_64(*self))
    }
}

impl Codec for i64 {
    proof fn lemma_round_trip(&self) {
        lemma_auto_spec_u64_to_from_le_bytes();
    }

    proof fn lemma_encode_len(&self) {
        lemma_auto_spec_u64_to_from_le_bytes();
    }
}

} // verus!
