use vstd::prelude::*;

verus! {

/// Every way in which decoding a label can fail.
#[derive(Debug, Clone, Copy, PartialEq, Eq, Structural)]
pub enum Error {
    /// A read asked for more bytes than the source holds from the cursor on.
    UnexpectedEof,
    /// A seek would move the cursor before the start of the source, or past
    /// the largest 64-bit position.
    InvalidSeek,
    /// A one-byte header field holds a value with no meaning; the byte is kept.
    InvalidInput(u8),
    /// The stream uses the native encoding, which is recognised but not decoded.
    UnsupportedEncoding,
    /// A 32-bit enumeration holds an integer that its table does not map; the
    /// integer is kept.
    UnknownValue(i32),
    /// The bytes of a string are not valid UTF-8.
    InvalidUtf8,
}

} // verus!
