use vstd::bytes::lemma_auto_spec_u16_to_from_le_bytes;
use vstd::bytes::lemma_auto_spec_u32_to_from_le_bytes;
use vstd::bytes::lemma_auto_spec_u64_to_from_le_bytes;
use vstd::bytes::spec_u16_from_le_bytes;
use vstd::bytes::spec_u16_to_le_bytes;
use vstd::bytes::spec_u32_from_le_bytes;
use vstd::bytes::spec_u32_to_le_bytes;
use vstd::bytes::spec_u64_from_le_bytes;
use vstd::bytes::spec_u64_to_le_bytes;
use vstd::bytes::u16_from_le_bytes;
use vstd::bytes::u32_from_le_bytes;
use vstd::bytes::u64_from_le_bytes;
use vstd::prelude::*;
use vstd::slice::slice_index_get;

use crate::valid::AllBytesValid;

verus! {

/// A scalar with a defined little-endian representation in guest memory.
///
/// Guest memory is always little-endian; decoding goes through arithmetic on
/// the bytes, never through the host's own byte order, so a load returns the
/// same value on every host. The round-trip obligation `le_round_trip` makes
/// each implementation prove that decoding the encoding of a value gives the
/// value back.
pub trait Endian: AllBytesValid {
    /// The value encoded by the little-endian bytes `b`.
    spec fn from_le_spec(b: Seq<u8>) -> Self
        recommends
            b.len() == Self::size_spec(),
    ;

    /// The little-endian encoding of `self`.
    spec fn to_le_spec(self) -> Seq<u8>;

    /// Decodes one value from exactly `size_spec()` little-endian bytes.
    fn from_le(b: &[u8]) -> (r: Self)
        requires
            b@.len() == Self::size_spec(),
        ensures
            r == Self::from_le_spec(b@),
    ;

    /// Decoding inverts encoding: a value written in little-endian order is
    /// read back unchanged, whatever the host byte order.
    proof fn le_round_trip(self)
        ensures
            self.to_le_spec().len() == Self::size_spec(),
            Self::from_le_spec(self.to_le_spec()) == self,
    ;
}

/// The signed value whose two's-complement 8-bit representation is `u`.
pub open spec fn to_signed_8(u: u8) -> i8 {
    if u <= i8::MAX {
        u as i8
    } else {
        (u - 0x100) as i8
    }
}

/// The unsigned two's-complement 8-bit representation of `v`.
pub open spec fn to_unsigned_8(v: i8) -> u8 {
    if v >= 0 {
        v as u8
    } else {
        (v + 0x100) as u8
    }
}

/// The signed value whose two's-complement 16-bit representation is `u`.
pub open spec fn to_signed_16(u: u16) -> i16 {
    if u <= i16::MAX {
        u as i16
    } else {
        (u - 0x1_0000) as i16
    }
}

/// The unsigned two's-complement 16-bit representation of `v`.
pub open spec fn to_unsigned_16(v: i16) -> u16 {
    if v >= 0 {
        v as u16
    } else {
        (v + 0x1_0000) as u16
    }
}

/// The signed value whose two's-complement 32-bit representation is `u`.
pub open spec fn to_signed_32(u: u32) -> i32 {
    if u <= i32::MAX {
        u as i32
    } else {
        (u - 0x1_0000_0000) as i32
    }
}

/// The unsigned two's-complement 32-bit representation of `v`.
pub open spec fn to_unsigned_32(v: i32) -> u32 {
    if v >= 0 {
        v as u32
    } else {
        (v + 0x1_0000_0000) as u32
    }
}

/// The signed value whose two's-complement 64-bit representation is `u`.
pub open spec fn to_signed_64(u: u64) -> i64 {
    if u <= i64::MAX {
        u as i64
    } else {
        (u - 0x1_0000_0000_0000_0000) as i64
    }
}

/// The unsigned two's-complement 64-bit representation of `v`.
pub open spec fn to_unsigned_64(v: i64) -> u64 {
    if v >= 0 {
        v as u64
    } else {
        (v + 0x1_0000_0000_0000_0000) as u64
    }
}

impl Endian for u8 {
    open spec fn from_le_spec(b: Seq<u8>) -> u8 {
        b[0]
    }

    open spec fn to_le_spec(self) -> Seq<u8> {
        seq![self]
    }

    fn from_le(b: &[u8]) -> u8 {
        *slice_index_get(b, 0)
    }

    proof fn le_round_trip(self) {
    }
}

impl Endian for u16 {
    open spec fn from_le_spec(b: Seq<u8>) -> u16 {
        spec_u16_from_le_bytes(b)
    }

    open spec fn to_le_spec(self) -> Seq<u8> {
        spec_u16_to_le_bytes(self)
    }

    fn from_le(b: &[u8]) -> u16 {
        u16_from_le_bytes(b)
    }

    proof fn le_round_trip(self) {
        lemma_auto_spec_u16_to_from_le_bytes();
        assert(spec_u16_to_le_bytes(self).len() == 2);
    }
}

impl Endian for u32 {
    open spec fn from_le_spec(b: Seq<u8>) -> u32 {
        spec_u32_from_le_bytes(b)
    }

    open spec fn to_le_spec(self) -> Seq<u8> {
        spec_u32_to_le_bytes(self)
    }

    fn from_le(b: &[u8]) -> u32 {
        u32_from_le_bytes(b)
    }

    proof fn le_round_trip(self) {
        lemma_auto_spec_u32_to_from_le_bytes();
        assert(spec_u32_to_le_bytes(self).len() == 4);
    }
}

impl Endian for u64 {
    open spec fn from_le_spec(b: Seq<u8>) -> u64 {
        spec_u64_from_le_bytes(b)
    }

    open spec fn to_le_spec(self) -> Seq<u8> {
        spec_u64_to_le_bytes(self)
    }

    fn from_le(b: &[u8]) -> u64 {
        u64_from_le_bytes(b)
    }

    proof fn le_round_trip(self) {
        lemma_auto_spec_u64_to_from_le_bytes();
        assert(spec_u64_to_le_bytes(self).len() == 8);
    }
}

impl Endian for i8 {
    open spec fn from_le_spec(b: Seq<u8>) -> i8 {
        to_signed_8(b[0])
    }

    open spec fn to_le_spec(self) -> Seq<u8> {
        seq![to_unsigned_8(self)]
    }

    fn from_le(b: &[u8]) -> i8 {
        let u = *slice_index_get(b, 0);
        if u <= (i8::MAX as u8) {
            u as i8
        } else {
            -((u8::MAX - u) as i8) - 1
        }
    }

    proof fn le_round_trip(self) {
    }
}

impl Endian for i16 {
    open spec fn from_le_spec(b: Seq<u8>) -> i16 {
        to_signed_16(spec_u16_from_le_bytes(b))
    }

    open spec fn to_le_spec(self) -> Seq<u8> {
        spec_u16_to_le_bytes(to_unsigned_16(self))
    }

    fn from_le(b: &[u8]) -> i16 {
        let u = u16_from_le_bytes(b);
        if u <= (i16::MAX as u16) {
            u as i16
        } else {
            -((u16::MAX - u) as i16) - 1
        }
    }

    proof fn le_round_trip(self) {
        lemma_auto_spec_u16_to_from_le_bytes();
        assert(spec_u16_to_le_bytes(to_unsigned_16(self)).len() == 2);
    }
}

impl Endian for i32 {
    open spec fn from_le_spec(b: Seq<u8>) -> i32 {
        to_signed_32(spec_u32_from_le_bytes(b))
    }

    open spec fn to_le_spec(self) -> Seq<u8> {
        spec_u32_to_le_bytes(to_unsigned_32(self))
    }

    fn from_le(b: &[u8]) -> i32 {
        let u = u32_from_le_bytes(b);
        if u <= (i32::MAX as u32) {
            u as i32
        } else {
            -((u32::MAX - u) as i32) - 1
        }
    }

    proof fn le_round_trip(self) {
        lemma_auto_spec_u32_to_from_le_bytes();
        assert(spec_u32_to_le_bytes(to_unsigned_32(self)).len() == 4);
    }
}

impl Endian for i64 {
    open spec fn from_le_spec(b: Seq<u8>) -> i64 {
        to_signed_64(spec_u64_from_le_bytes(b))
    }

    open spec fn to_le_spec(self) -> Seq<u8> {
        spec_u64_to_le_bytes(to_unsigned_64(self))
    }

    fn from_le(b: &[u8]) -> i64 {
        let u = u64_from_le_bytes(b);
        if u <= (i64::MAX as u64) {
            u as i64
        } else {
            -((u64::MAX - u) as i64) - 1
        }
    }

    proof fn le_round_trip(self) {
        lemma_auto_spec_u64_to_from_le_bytes();
        assert(spec_u64_to_le_bytes(to_unsigned_64(self)).len() == 8);
    }
}

} // verus!
