//! The header of an encoded nvlist: how the stream is encoded, then the
//! version and flags of the list.

use vstd::prelude::*;
use crate::binary::Reader;
use crate::error::Error;
use crate::xdr::mapping::{Bitmask, Enum, EnumMapping, enum_decoded, selected};
use crate::xdr::primitive::be_i32;

verus! {

/// Width of the encoding field of the stream header.
pub const ENCODING_SIZE: usize = 1;

/// Width of the endianness field of the stream header.
pub const ENDIANNESS_SIZE: usize = 1;

/// Reserved bytes that close the stream header.
pub const STREAM_HEADER_RESERVED: u32 = 2;

/// How the pairs of an nvlist stream are encoded. These are one-byte fields,
/// not XDR enumerations, which are four bytes wide.
#[derive(Debug, Clone, Copy, PartialEq, Eq, Structural)]
pub enum Encoding {
    /// Native encoding: recognised, but not decoded.
    Native,
    /// XDR encoding.
    XDR,
}

/// The byte of each encoding.
pub open spec fn encoding_byte(e: Encoding) -> u8 {
    match e {
        Encoding::Native => 0,
        Encoding::XDR => 1,
    }
}

/// The encoding that a byte names, or `InvalidInput` with the byte.
pub open spec fn encoding_of(x: u8) -> Result<Encoding, Error> {
    if x == 0 {
        Ok(Encoding::Native)
    } else if x == 1 {
        Ok(Encoding::XDR)
    } else {
        Err(Error::InvalidInput(x))
    }
}

impl From<Encoding> for u8 {
    fn from(e: Encoding) -> (r: u8) {
        match e {
            Encoding::Native => 0,
            Encoding::XDR => 1,
        }
    }
}

impl vstd::std_specs::convert::FromSpecImpl<Encoding> for u8 {
    open spec fn obeys_from_spec() -> bool {
        true
    }

    open spec fn from_spec(e: Encoding) -> u8 {
        encoding_byte(e)
    }
}

impl TryFrom<u8> for Encoding {
    type Error = u8;

    fn try_from(x: u8) -> (r: Result<Self, u8>) {
        match x {
            0 => Ok(Encoding::Native),
            1 => Ok(Encoding::XDR),
            _ => Err(x),
        }
    }
}

impl vstd::std_specs::convert::TryFromSpecImpl<u8> for Encoding {
    open spec fn obeys_try_from_spec() -> bool {
        true
    }

    open spec fn try_from_spec(x: u8) -> Result<Self, u8> {
        match encoding_of(x) {
            Ok(e) => Ok(e),
            Err(_) => Err(x),
        }
    }
}

impl Encoding {
    /// Reads the encoding byte at the cursor. The byte is consumed also where
    /// it names no encoding.
    pub fn read(r: &mut Reader) -> (res: Result<Self, Error>)
        ensures
            final(r).bytes() == old(r).bytes(),
            old(r).can_read(1) ==> res == encoding_of(old(r).bytes()[old(r).pos() as int])
                && final(r).pos() == old(r).pos() + 1,
            !old(r).can_read(1) ==> (res matches Err(Error::UnexpectedEof))
                && final(r).pos() == old(r).pos(),
    {
        let decode = |x: &[u8; ENCODING_SIZE]| -> (d: Result<Self, Error>)
            ensures
                d == encoding_of(x@[0]),
        { Self::decode(x[0]) };
        r.try_read_as::<Self, ENCODING_SIZE>(decode)
    }

    /// The encoding that the byte `x` names, or `InvalidInput` with the byte.
    pub fn decode(x: u8) -> (r: Result<Self, Error>)
        ensures
            r == encoding_of(x),
    {
        match Self::try_from(x) {
            Ok(v) => Ok(v),
            Err(n) => Err(Error::InvalidInput(n)),
        }
    }
}

/// The byte order of the stream.
#[derive(Debug, Clone, Copy, PartialEq, Eq, Structural)]
pub enum Endianness {
    Big,
    Little,
}

/// The byte of each byte order.
pub open spec fn endianness_byte(e: Endianness) -> u8 {
    match e {
        Endianness::Big => 0,
        Endianness::Little => 1,
    }
}

/// The byte order that a byte names, or `InvalidInput` with the byte.
pub open spec fn endianness_of(x: u8) -> Result<Endianness, Error> {
    if x == 0 {
        Ok(Endianness::Big)
    } else if x == 1 {
        Ok(Endianness::Little)
    } else {
        Err(Error::InvalidInput(x))
    }
}

impl From<Endianness> for u8 {
    fn from(e: Endianness) -> (r: u8) {
        match e {
            Endianness::Big => 0,
            Endianness::Little => 1,
        }
    }
}

impl vstd::std_specs::convert::FromSpecImpl<Endianness> for u8 {
    open spec fn obeys_from_spec() -> bool {
        true
    }

    open spec fn from_spec(e: Endianness) -> u8 {
        endianness_byte(e)
    }
}

impl TryFrom<u8> for Endianness {
    type Error = u8;

    fn try_from(x: u8) -> (r: Result<Self, u8>) {
        match x {
            0 => Ok(Endianness::Big),
            1 => Ok(Endianness::Little),
            _ => Err(x),
        }
    }
}

impl vstd::std_specs::convert::TryFromSpecImpl<u8> for Endianness {
    open spec fn obeys_try_from_spec() -> bool {
        true
    }

    open spec fn try_from_spec(x: u8) -> Result<Self, u8> {
        match endianness_of(x) {
            Ok(e) => Ok(e),
            Err(_) => Err(x),
        }
    }
}

impl Endianness {
    /// Reads the endianness byte at the cursor. The byte is consumed also
    /// where it names no byte order.
    pub fn read(r: &mut Reader) -> (res: Result<Self, Error>)
        ensures
            final(r).bytes() == old(r).bytes(),
            old(r).can_read(1) ==> res == endianness_of(old(r).bytes()[old(r).pos() as int])
                && final(r).pos() == old(r).pos() + 1,
            !old(r).can_read(1) ==> (res matches Err(Error::UnexpectedEof))
                && final(r).pos() == old(r).pos(),
    {
        let decode = |x: &[u8; ENDIANNESS_SIZE]| -> (d: Result<Self, Error>)
            ensures
                d == endianness_of(x@[0]),
        { Self::decode(x[0]) };
        r.try_read_as::<Self, ENDIANNESS_SIZE>(decode)
    }

    /// The byte order that the byte `x` names, or `InvalidInput` with the byte.
    pub fn decode(x: u8) -> (r: Result<Self, Error>)
        ensures
            r == endianness_of(x),
    {
        match Self::try_from(x) {
            Ok(v) => Ok(v),
            Err(n) => Err(Error::InvalidInput(n)),
        }
    }
}

/// Every encoding is named by its own byte, and a byte names an encoding
/// exactly when it is 0 or 1; every other byte is refused with itself kept.
pub proof fn lemma_encoding_round_trip(e: Encoding, x: u8)
    ensures
        encoding_of(encoding_byte(e)) == Ok::<Encoding, Error>(e),
        x <= 1 ==> (encoding_of(x) matches Ok(d) && encoding_byte(d) == x),
        x > 1 ==> encoding_of(x) == Err::<Encoding, Error>(Error::InvalidInput(x)),
{
}

/// Every byte order is named by its own byte, and a byte names a byte order
/// exactly when it is 0 or 1; every other byte is refused with itself kept.
pub proof fn lemma_endianness_round_trip(e: Endianness, x: u8)
    ensures
        endianness_of(endianness_byte(e)) == Ok::<Endianness, Error>(e),
        x <= 1 ==> (endianness_of(x) matches Ok(d) && endianness_byte(d) == x),
        x > 1 ==> endianness_of(x) == Err::<Endianness, Error>(Error::InvalidInput(x)),
{
}

/// The fixed header of an nvlist stream: the encoding, the byte order, and two
/// reserved bytes that are skipped.
#[derive(Debug, Clone, Copy, PartialEq, Eq, Structural)]
pub struct StreamHeader {
    pub encoding: Encoding,
    pub endianness: Endianness,
}

/// What reading a stream header from `b` with the cursor at `p` gives, and
/// where the cursor ends up.
pub open spec fn header_read(b: Seq<u8>, p: int) -> (Result<StreamHeader, Error>, int) {
    if p + 1 > b.len() {
        (Err(Error::UnexpectedEof), p)
    } else {
        match encoding_of(b[p]) {
            Err(e) => (Err(e), p + 1),
            Ok(encoding) => if p + 2 > b.len() {
                (Err(Error::UnexpectedEof), p + 1)
            } else {
                match endianness_of(b[p + 1]) {
                    Err(e) => (Err(e), p + 2),
                    Ok(endianness) => if p + 4 > u64::MAX {
                        (Err(Error::InvalidSeek), p + 2)
                    } else {
                        (Ok(StreamHeader { encoding, endianness }), p + 4)
                    },
                }
            },
        }
    }
}

impl StreamHeader {
    /// Reads the four bytes of a stream header at the cursor.
    pub fn read(r: &mut Reader) -> (res: Result<Self, Error>)
        ensures
            final(r).bytes() == old(r).bytes(),
            final(r).pos() == header_read(old(r).bytes(), old(r).pos() as int).1,
            res == header_read(old(r).bytes(), old(r).pos() as int).0,
    {
        let encoding = Encoding::read(r)?;
        let endianness = Endianness::read(r)?;
        r.skip(STREAM_HEADER_RESERVED)?;
        Ok(StreamHeader { encoding, endianness })
    }
}

/// The version of an nvlist.
#[derive(Debug, Clone, Copy, PartialEq, Eq, Structural)]
pub enum Version {
    V0,
}

/// How many versions there are.
pub const VERSIONS: usize = 1;

/// The table of versions.
pub open spec fn version_table() -> Seq<(Version, i32)> {
    seq![(Version::V0, 0i32)]
}

/// The table of versions.
pub fn version_mapping() -> (m: EnumMapping<Version, VERSIONS>)
    ensures
        m@ == version_table(),
{
    let m: EnumMapping<Version, VERSIONS> = [(Version::V0, 0)];
    assert(m@ =~= version_table());
    m
}

/// The flags of an nvlist.
#[derive(Debug, Clone, Copy, PartialEq, Eq, Structural)]
pub enum Flags {
    /// Existing nvpairs with matching names are removed before the new nvpair
    /// is added.
    UniqueName,
    /// Existing nvpairs with matching names and data types are removed before
    /// the new nvpair is added.
    UniqueNameType,
}

/// How many flags there are.
pub const FLAGS: usize = 2;

/// The table of flags: the bit of each.
pub open spec fn flags_table() -> Seq<(Flags, i32)> {
    seq![(Flags::UniqueName, 0x1i32), (Flags::UniqueNameType, 0x2i32)]
}

/// The table of flags: the bit of each.
pub fn flags_mapping() -> (m: EnumMapping<Flags, FLAGS>)
    ensures
        m@ == flags_table(),
{
    let m: EnumMapping<Flags, FLAGS> = [(Flags::UniqueName, 0x1), (Flags::UniqueNameType, 0x2)];
    assert(m@ =~= flags_table());
    m
}

/// The version and flags of an nvlist, as they follow the stream header.
#[derive(Debug)]
pub struct Nvlist {
    pub version: Version,
    pub flags: Vec<Flags>,
}

/// What reading the version and flags of an nvlist from `b` with the cursor at
/// `p` gives, and where the cursor ends up.
pub open spec fn nvlist_read(b: Seq<u8>, p: int) -> (Result<(Version, Seq<Flags>), Error>, int) {
    if p + 4 > b.len() {
        (Err(Error::UnexpectedEof), p)
    } else {
        match enum_decoded(version_table(), be_i32(b.subrange(p, p + 4)) as i32) {
            Err(e) => (Err(e), p + 4),
            Ok(version) => if p + 8 > b.len() {
                (Err(Error::UnexpectedEof), p + 4)
            } else {
                (Ok((version, selected(flags_table(), be_i32(b.subrange(p + 4, p + 8)) as i32))), p + 8)
            },
        }
    }
}

impl Nvlist {
    /// Reads the version and the flags at the cursor.
    pub fn read(r: &mut Reader) -> (res: Result<Self, Error>)
        ensures
            final(r).bytes() == old(r).bytes(),
            final(r).pos() == nvlist_read(old(r).bytes(), old(r).pos() as int).1,
            match res {
                Ok(n) => nvlist_read(old(r).bytes(), old(r).pos() as int).0
                    == Ok::<(Version, Seq<Flags>), Error>((n.version, n.flags@)),
                Err(e) => nvlist_read(old(r).bytes(), old(r).pos() as int).0
                    == Err::<(Version, Seq<Flags>), Error>(e),
            },
    {
        let versions = version_mapping();
        let flags = flags_mapping();
        let version = Enum::new(&versions).read(r)?;
        let flags = Bitmask::new(&flags).read(r)?;
        Ok(Nvlist { version, flags })
    }
}

/// What reading a whole nvlist stream from `b` with the cursor at `p` gives:
/// the header, the version and the flags, or the error; and where the cursor
/// ends up. A stream in the native encoding is refused after its header.
pub open spec fn nvstream_read(b: Seq<u8>, p: int) -> (
    Result<(StreamHeader, Version, Seq<Flags>), Error>,
    int,
) {
    let (h, q) = header_read(b, p);
    match h {
        Err(e) => (Err(e), q),
        Ok(header) => if header.encoding == Encoding::Native {
            (Err(Error::UnsupportedEncoding), q)
        } else {
            let (n, end) = nvlist_read(b, q);
            match n {
                Err(e) => (Err(e), end),
                Ok((version, flags)) => (Ok((header, version, flags)), end),
            }
        },
    }
}

/// An nvlist stream: its header, then the list.
#[derive(Debug)]
pub struct Nvstream {
    pub header: StreamHeader,
    pub nvlist: Nvlist,
}

impl Nvstream {
    /// Reads an nvlist stream at the cursor. Only the XDR encoding is decoded:
    /// a stream in the native encoding fails with `UnsupportedEncoding`.
    pub fn read(r: &mut Reader) -> (res: Result<Self, Error>)
        ensures
            final(r).bytes() == old(r).bytes(),
            final(r).pos() == nvstream_read(old(r).bytes(), old(r).pos() as int).1,
            match res {
                Ok(s) => nvstream_read(old(r).bytes(), old(r).pos() as int).0
                    == Ok::<(StreamHeader, Version, Seq<Flags>), Error>(
                    (s.header, s.nvlist.version, s.nvlist.flags@),
                ),
                Err(e) => nvstream_read(old(r).bytes(), old(r).pos() as int).0
                    == Err::<(StreamHeader, Version, Seq<Flags>), Error>(e),
            },
    {
        let header = StreamHeader::read(r)?;
        let nvlist = match header.encoding {
            Encoding::Native => {
                return Err(Error::UnsupportedEncoding);
            },
            Encoding::XDR => Nvlist::read(r)?,
        };
        Ok(Nvstream { header, nvlist })
    }
}

/// The decoded nvlist of a label: the stream header, the version and the flags.
#[derive(Debug)]
pub struct List {
    pub header: StreamHeader,
    pub version: Version,
    pub flags: Vec<Flags>,
}

impl List {
    /// Reads an nvlist stream at the cursor, as `Nvstream::read` does.
    pub fn read(r: &mut Reader) -> (res: Result<Self, Error>)
        ensures
            final(r).bytes() == old(r).bytes(),
            final(r).pos() == nvstream_read(old(r).bytes(), old(r).pos() as int).1,
            match res {
                Ok(l) => nvstream_read(old(r).bytes(), old(r).pos() as int).0
                    == Ok::<(StreamHeader, Version, Seq<Flags>), Error>((l.header, l.version, l.flags@)),
                Err(e) => nvstream_read(old(r).bytes(), old(r).pos() as int).0
                    == Err::<(StreamHeader, Version, Seq<Flags>), Error>(e),
            },
    {
        let stream = Nvstream::read(r)?;
        Ok(List { header: stream.header, version: stream.nvlist.version, flags: stream.nvlist.flags })
    }
}

} // verus!
