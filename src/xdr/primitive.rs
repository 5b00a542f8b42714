//! Fixed-width integers: most significant byte first.

use vstd::prelude::*;
use crate::binary::{Reader, as_array};
use crate::error::Error;

verus! {

/// Width of an XDR integer.
pub const I32_SIZE: usize = 4;

/// Width of an XDR unsigned integer.
pub const U32_SIZE: usize = 4;

/// Width of an XDR hyper integer.
pub const I64_SIZE: usize = 8;

/// Width of an XDR unsigned hyper integer.
pub const U64_SIZE: usize = 8;

/// The unsigned number that four bytes spell, most significant first.
pub open spec fn be_u32(b: Seq<u8>) -> int {
    b[0] * 0x1000000 + b[1] * 0x10000 + b[2] * 0x100 + b[3]
}

/// The two's complement number that four bytes spell, most significant first.
pub open spec fn be_i32(b: Seq<u8>) -> int {
    let u = be_u32(b);
    if u < 0x8000_0000 { u } else { u - 0x1_0000_0000 }
}

/// The unsigned number that eight bytes spell, most significant first.
pub open spec fn be_u64(b: Seq<u8>) -> int {
    be_u32(b.subrange(0, 4)) * 0x1_0000_0000 + be_u32(b.subrange(4, 8))
}

/// The two's complement number that eight bytes spell, most significant first.
pub open spec fn be_i64(b: Seq<u8>) -> int {
    let u = be_u64(b);
    if u < 0x8000_0000_0000_0000 { u } else { u - 0x1_0000_0000_0000_0000 }
}

/// Four bytes as an unsigned number, most significant first.
fn u32_from_be(x: &[u8; 4]) -> (r: u32)
    ensures
        r == be_u32(x@),
{
    (x[0] as u32) * 0x1000000 + (x[1] as u32) * 0x10000 + (x[2] as u32) * 0x100 + (x[3] as u32)
}

/// An unsigned number as four bytes, most significant first.
fn u32_to_be(v: u32) -> (r: [u8; 4])
    ensures
        be_u32(r@) == v,
{
    let r = [(v / 0x1000000) as u8, (v / 0x10000 % 0x100) as u8, (v / 0x100 % 0x100) as u8, (v % 0x100) as u8];
    assert(be_u32(r@) == v);
    r
}

/// Eight bytes as an unsigned number, most significant first.
fn u64_from_be(x: &[u8; 8]) -> (r: u64)
    ensures
        r == be_u64(x@),
{
    let hi_bytes: [u8; 4] = [x[0], x[1], x[2], x[3]];
    let lo_bytes: [u8; 4] = [x[4], x[5], x[6], x[7]];
    assert(hi_bytes@ =~= x@.subrange(0, 4));
    assert(lo_bytes@ =~= x@.subrange(4, 8));
    let hi: u32 = u32_from_be(&hi_bytes);
    let lo: u32 = u32_from_be(&lo_bytes);
    (hi as u64) * 0x1_0000_0000 + (lo as u64)
}

/// An unsigned number as eight bytes, most significant first.
fn u64_to_be(v: u64) -> (r: [u8; 8])
    ensures
        be_u64(r@) == v,
{
    let hi: [u8; 4] = u32_to_be((v / 0x1_0000_0000) as u32);
    let lo: [u8; 4] = u32_to_be((v % 0x1_0000_0000) as u32);
    let r: [u8; 8] = [hi[0], hi[1], hi[2], hi[3], lo[0], lo[1], lo[2], lo[3]];
    assert(r@.subrange(0, 4) =~= hi@);
    assert(r@.subrange(4, 8) =~= lo@);
    r
}

/// A number below 2^64 read as two's complement.
fn u64_as_i64(u: u64) -> (r: i64)
    ensures
        r == (if u < 0x8000_0000_0000_0000 { u as int } else { u - 0x1_0000_0000_0000_0000 }),
{
    if u < 0x8000_0000_0000_0000 {
        u as i64
    } else {
        (u - 0x8000_0000_0000_0000) as i64 + i64::MIN
    }
}

/// A two's complement number as its unsigned 64-bit pattern.
fn i64_as_u64(v: i64) -> (r: u64)
    ensures
        r == (if v >= 0 { v as int } else { v + 0x1_0000_0000_0000_0000 }),
{
    if v >= 0 {
        v as u64
    } else {
        ((v - i64::MIN) as u64) + 0x8000_0000_0000_0000
    }
}

/// Integer
///
/// An XDR signed integer is a 32-bit datum that encodes an integer in the
/// range [-2147483648, 2147483647], in two's complement notation. The most
/// and least significant bytes are 0 and 3, respectively.
#[derive(Debug, Clone, Copy, PartialEq, Eq, Structural)]
pub struct I32(pub i32);

impl I32 {
    /// Reads an integer at the cursor.
    pub fn read(r: &mut Reader) -> (res: Result<Self, Error>)
        ensures
            final(r).bytes() == old(r).bytes(),
            res is Ok <==> old(r).can_read(I32_SIZE as nat),
            res matches Ok(v) ==> v.0 == be_i32(old(r).next_bytes(I32_SIZE as nat))
                && final(r).pos() == old(r).pos() + I32_SIZE,
            res is Err ==> (res matches Err(Error::UnexpectedEof)) && final(r).pos() == old(r).pos(),
    {
        r.read_as::<Self, I32_SIZE>(Self::decode)
    }

    /// The integer that four bytes encode.
    pub fn decode(x: &[u8; I32_SIZE]) -> (r: Self)
        ensures
            r.0 == be_i32(x@),
    {
        let u: u32 = u32_from_be(x);
        if u < 0x8000_0000 {
            I32(u as i32)
        } else {
            I32((u - 0x8000_0000) as i32 + i32::MIN)
        }
    }

    /// The four bytes that encode this integer.
    pub fn encode(&self) -> (r: [u8; I32_SIZE])
        ensures
            be_i32(r@) == self.0,
    {
        let v: i32 = self.0;
        let u: u32 = if v >= 0 { v as u32 } else { ((v - i32::MIN) as u32) + 0x8000_0000 };
        u32_to_be(u)
    }
}

impl From<I32> for i32 {
    fn from(x: I32) -> (r: i32) {
        x.0
    }
}

impl vstd::std_specs::convert::FromSpecImpl<I32> for i32 {
    open spec fn obeys_from_spec() -> bool {
        true
    }

    open spec fn from_spec(x: I32) -> i32 {
        x.0
    }
}

/// Unsigned Integer
///
/// An XDR unsigned integer is a 32-bit datum that encodes a nonnegative
/// integer in the range [0, 4294967295]. The most and least significant bytes
/// are 0 and 3, respectively.
#[derive(Debug, Clone, Copy, PartialEq, Eq, Structural)]
pub struct U32(pub u32);

impl U32 {
    /// Reads an unsigned integer at the cursor.
    pub fn read(r: &mut Reader) -> (res: Result<Self, Error>)
        ensures
            final(r).bytes() == old(r).bytes(),
            res is Ok <==> old(r).can_read(U32_SIZE as nat),
            res matches Ok(v) ==> v.0 == be_u32(old(r).next_bytes(U32_SIZE as nat))
                && final(r).pos() == old(r).pos() + U32_SIZE,
            res is Err ==> (res matches Err(Error::UnexpectedEof)) && final(r).pos() == old(r).pos(),
    {
        r.read_as::<Self, U32_SIZE>(Self::decode)
    }

    /// The unsigned integer that four bytes encode.
    pub fn decode(x: &[u8; U32_SIZE]) -> (r: Self)
        ensures
            r.0 == be_u32(x@),
    {
        U32(u32_from_be(x))
    }

    /// The four bytes that encode this unsigned integer.
    pub fn encode(&self) -> (r: [u8; U32_SIZE])
        ensures
            be_u32(r@) == self.0,
    {
        u32_to_be(self.0)
    }
}

impl From<U32> for u32 {
    fn from(x: U32) -> (r: u32) {
        x.0
    }
}

impl vstd::std_specs::convert::FromSpecImpl<U32> for u32 {
    open spec fn obeys_from_spec() -> bool {
        true
    }

    open spec fn from_spec(x: U32) -> u32 {
        x.0
    }
}

/// Hyper Integer
///
/// A 64-bit (8-byte) integer in two's complement notation. The most and least
/// significant bytes are 0 and 7, respectively.
#[derive(Debug, Clone, Copy, PartialEq, Eq, Structural)]
pub struct I64(pub i64);

impl I64 {
    /// Reads a hyper integer at the cursor.
    pub fn read(r: &mut Reader) -> (res: Result<Self, Error>)
        ensures
            final(r).bytes() == old(r).bytes(),
            res is Ok <==> old(r).can_read(I64_SIZE as nat),
            res matches Ok(v) ==> v.0 == be_i64(old(r).next_bytes(I64_SIZE as nat))
                && final(r).pos() == old(r).pos() + I64_SIZE,
            res is Err ==> (res matches Err(Error::UnexpectedEof)) && final(r).pos() == old(r).pos(),
    {
        r.read_as::<Self, I64_SIZE>(Self::decode)
    }

    /// The hyper integer that eight bytes encode.
    pub fn decode(x: &[u8; I64_SIZE]) -> (r: Self)
        ensures
            r.0 == be_i64(x@),
    {
        I64(u64_as_i64(u64_from_be(x)))
    }

    /// The eight bytes that encode this hyper integer.
    pub fn encode(&self) -> (r: [u8; I64_SIZE])
        ensures
            be_i64(r@) == self.0,
    {
        u64_to_be(i64_as_u64(self.0))
    }
}

impl From<I64> for i64 {
    fn from(x: I64) -> (r: i64) {
        x.0
    }
}

impl vstd::std_specs::convert::FromSpecImpl<I64> for i64 {
    open spec fn obeys_from_spec() -> bool {
        true
    }

    open spec fn from_spec(x: I64) -> i64 {
        x.0
    }
}

/// Unsigned Hyper Integer
///
/// A 64-bit (8-byte) unsigned integer. The most and least significant bytes
/// are 0 and 7, respectively.
#[derive(Debug, Clone, Copy, PartialEq, Eq, Structural)]
pub struct U64(pub u64);

impl U64 {
    /// Reads an unsigned hyper integer at the cursor.
    pub fn read(r: &mut Reader) -> (res: Result<Self, Error>)
        ensures
            final(r).bytes() == old(r).bytes(),
            res is Ok <==> old(r).can_read(U64_SIZE as nat),
            res matches Ok(v) ==> v.0 == be_u64(old(r).next_bytes(U64_SIZE as nat))
                && final(r).pos() == old(r).pos() + U64_SIZE,
            res is Err ==> (res matches Err(Error::UnexpectedEof)) && final(r).pos() == old(r).pos(),
    {
        r.read_as::<Self, U64_SIZE>(Self::decode)
    }

    /// The unsigned hyper integer that eight bytes encode.
    pub fn decode(x: &[u8; U64_SIZE]) -> (r: Self)
        ensures
            r.0 == be_u64(x@),
    {
        U64(u64_from_be(x))
    }

    /// The eight bytes that encode this unsigned hyper integer.
    pub fn encode(&self) -> (r: [u8; U64_SIZE])
        ensures
            be_u64(r@) == self.0,
    {
        u64_to_be(self.0)
    }
}

impl From<U64> for u64 {
    fn from(x: U64) -> (r: u64) {
        x.0
    }
}

impl vstd::std_specs::convert::FromSpecImpl<U64> for u64 {
    open spec fn obeys_from_spec() -> bool {
        true
    }

    open spec fn from_spec(x: U64) -> u64 {
        x.0
    }
}

} // verus!
