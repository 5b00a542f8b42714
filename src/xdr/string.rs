//! Counted byte strings holding UTF-8 text.

use vstd::prelude::*;
use vstd::string::StringSliceAdditionalSpecFns;
use vstd::utf8::{decode_utf8, encode_utf8_decode_utf8, encode_utf8_valid_utf8, valid_utf8};
use std::string::String as StdString;
use crate::binary::{Reader, align_up, lemma_align_up_bounds};
use crate::error::Error;
use crate::xdr::primitive::{U32, be_u32};

verus! {

/// Width of the length that precedes the bytes of a string.
const STRING_LEN_SIZE: usize = 4;

/// How many zero bytes follow `n` bytes of a string, up to a multiple of four.
pub open spec fn padding(n: int) -> int {
    align_up(n, 4) - n
}

/// What reading a string from `b` with the cursor at `p` gives: the
/// characters or the error, and where the cursor ends up.
pub open spec fn string_read(b: Seq<u8>, p: int) -> (Result<Seq<char>, Error>, int) {
    if p + 4 > b.len() {
        (Err(Error::UnexpectedEof), p)
    } else {
        let start = p + 4;
        let end = start + be_u32(b.subrange(p, start));
        if end > b.len() {
            (Err(Error::UnexpectedEof), start)
        } else if !valid_utf8(b.subrange(start, end)) {
            (Err(Error::InvalidUtf8), end)
        } else if end + 3 > u64::MAX {
            (Err(Error::InvalidSeek), end)
        } else {
            (Ok(decode_utf8(b.subrange(start, end))), align_up(end, 4))
        }
    }
}

/// `e` is the XDR encoding of the bytes `b`: their count as an unsigned
/// integer, the bytes, and zero bytes up to a multiple of four.
pub open spec fn is_string_encoding(e: Seq<u8>, b: Seq<u8>) -> bool {
    &&& b.len() <= u32::MAX
    &&& e.len() == 4 + b.len() + padding(b.len() as int)
    &&& be_u32(e.subrange(0, 4)) == b.len()
    &&& e.subrange(4, 4 + b.len() as int) == b
    &&& forall|i: int| 4 + b.len() <= i < e.len() ==> e[i] == 0
}

/// Relies on `String::from_utf8`: it succeeds exactly where the bytes are
/// valid UTF-8, and the string then holds the characters that they encode.
#[verifier::external_body]
fn string_from_utf8(bytes: Vec<u8>) -> (r: Option<StdString>)
    ensures
        r is Some <==> valid_utf8(bytes@),
        r matches Some(s) ==> s@ == decode_utf8(bytes@),
{
    StdString::from_utf8(bytes).ok()
}

/// String
///
/// A string of n bytes is the number n as an unsigned integer, then the n
/// bytes, then enough (0 to 3) zero bytes to make the total byte count a
/// multiple of four. The bytes must be valid UTF-8; the padding is skipped
/// without being checked.
#[derive(Debug)]
pub struct String(pub StdString);

impl String {
    /// Reads a string at the cursor, and aligns the cursor to four bytes past it.
    pub fn read(r: &mut Reader) -> (res: Result<Self, Error>)
        ensures
            final(r).bytes() == old(r).bytes(),
            final(r).pos() == string_read(old(r).bytes(), old(r).pos() as int).1,
            match res {
                Ok(s) => string_read(old(r).bytes(), old(r).pos() as int).0 == Ok::<Seq<char>, Error>(s.0@),
                Err(e) => string_read(old(r).bytes(), old(r).pos() as int).0 == Err::<Seq<char>, Error>(e),
            },
    {
        let len: u32 = r.read_as::<u32, STRING_LEN_SIZE>(Self::decode_len)?;
        let len: usize = len as usize;
        let s = String(r.try_read_to::<StdString>(len, Self::decode_str)?);
        proof {
            vstd::arithmetic::power2::lemma2_to64();
            assert(vstd::arithmetic::power2::pow2(2) == 4u32);
        }
        r.align(4)?;
        Ok(s)
    }

    /// The length that four bytes encode.
    fn decode_len(x: &[u8; STRING_LEN_SIZE]) -> (r: u32)
        ensures
            r == be_u32(x@),
    {
        U32::decode(x).0
    }

    /// The text that bytes encode, where they are valid UTF-8.
    fn decode_str(x: Vec<u8>) -> (r: Result<StdString, Error>)
        ensures
            valid_utf8(x@) ==> (r matches Ok(s) && s@ == decode_utf8(x@)),
            !valid_utf8(x@) ==> r == Err::<StdString, Error>(Error::InvalidUtf8),
    {
        match string_from_utf8(x) {
            Some(s) => Ok(s),
            None => Err(Error::InvalidUtf8),
        }
    }

    /// The XDR encoding of the UTF-8 bytes of `s`.
    pub fn encode(s: &str) -> (r: Vec<u8>)
        requires
            s.spec_bytes().len() <= u32::MAX,
        ensures
            is_string_encoding(r@, s.spec_bytes()),
    {
        let bytes: &[u8] = s.as_bytes();
        let n: usize = bytes.len();
        let len: [u8; 4] = U32(n as u32).encode();
        let mut out: Vec<u8> = Vec::new();
        out.push(len[0]);
        out.push(len[1]);
        out.push(len[2]);
        out.push(len[3]);
        assert(out@ =~= len@);
        let mut i: usize = 0;
        while i < n
            invariant
                n == bytes@.len(),
                n <= u32::MAX,
                0 <= i <= n,
                out@.len() == 4 + i,
                out@.subrange(0, 4) == len@,
                out@.subrange(4, 4 + i) == bytes@.subrange(0, i as int),
            decreases n - i,
        {
            out.push(bytes[i]);
            assert(out@.subrange(0, 4) =~= len@);
            assert(out@.subrange(4, 4 + i + 1) =~= bytes@.subrange(0, i + 1));
            i = i + 1;
        }
        assert(bytes@.subrange(0, n as int) =~= bytes@);
        proof {
            lemma_align_up_bounds(n as int, 4);
        }
        let ghost body = out@;
        while out.len() % 4 != 0
            invariant
                body.len() == 4 + n,
                n <= u32::MAX,
                4 + n <= out@.len() <= 4 + align_up(n as int, 4),
                align_up(n as int, 4) % 4 == 0,
                out@.subrange(0, 4 + n as int) == body,
                forall|j: int| 4 + n <= j < out@.len() ==> out@[j] == 0,
            decreases 4 + align_up(n as int, 4) - out@.len(),
        {
            out.push(0);
            assert(out@.subrange(0, 4 + n as int) =~= body);
        }
        assert(out@.subrange(0, 4) =~= body.subrange(0, 4));
        assert(out@.subrange(4, 4 + n as int) =~= body.subrange(4, 4 + n as int));
        out
    }
}

impl From<String> for StdString {
    fn from(x: String) -> (r: StdString) {
        x.0
    }
}

impl vstd::std_specs::convert::FromSpecImpl<String> for StdString {
    open spec fn obeys_from_spec() -> bool {
        true
    }

    open spec fn from_spec(x: String) -> StdString {
        x.0
    }
}

/// Reading back the encoding of a string gives the same characters, and
/// leaves the cursor at the end of the encoding, on a four-byte boundary.
pub proof fn lemma_string_round_trip(s: &str, e: Seq<u8>)
    requires
        is_string_encoding(e, s.spec_bytes()),
    ensures
        string_read(e, 0) == (Ok::<Seq<char>, Error>(s@), e.len() as int),
        e.len() % 4 == 0,
{
    let b = s.spec_bytes();
    lemma_align_up_bounds(b.len() as int, 4);
    encode_utf8_valid_utf8(s@);
    encode_utf8_decode_utf8(s@);
    assert(e.subrange(0, 4 + b.len() as int).subrange(4, 4 + b.len() as int) =~= e.subrange(4, 4 + b.len() as int));
    lemma_align_up_bounds(4 + b.len() as int, 4);
    assert(align_up(4 + b.len() as int, 4) == 4 + align_up(b.len() as int, 4)) by {
        vstd::arithmetic::div_mod::lemma_fundamental_div_mod(b.len() + 3int, 4);
        vstd::arithmetic::div_mod::lemma_fundamental_div_mod(b.len() + 7int, 4);
    }
}

} // verus!
