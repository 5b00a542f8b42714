//! What the library knows of Unix devices.

use vstd::prelude::*;

verus! {

/// Size of the blocks in which the kernel reports the size of a block device.
pub const UNIX_BLOCK_SIZE: u64 = 512;

/// The major and minor numbers of a device, out of the 16 low bits of its
/// device number: the major in bits 8 to 15, the minor in bits 0 to 7.
#[derive(Debug, Clone, Copy, PartialEq, Eq, Structural)]
pub struct DeviceNumber {
    pub major: u32,
    pub minor: u32,
}

impl DeviceNumber {
    /// Splits the device number `n`.
    pub fn new(n: u64) -> (r: Self)
        ensures
            r.major == (n / 256) % 256,
            r.minor == n % 256,
    {
        assert((n >> 8u64) & 0xff == (n / 256) % 256) by (bit_vector);
        assert(n & 0xff == n % 256) by (bit_vector);
        Self {
            major: ((n >> 8) & 0xff) as u32,
            minor: (n & 0xff) as u32,
        }
    }
}

/// The size in bytes of a block device of `blocks` blocks, where it fits in
/// 64 bits.
pub fn block_device_size(blocks: u64) -> (r: Option<u64>)
    ensures
        blocks * UNIX_BLOCK_SIZE <= u64::MAX ==> r == Some((blocks * UNIX_BLOCK_SIZE) as u64),
        blocks * UNIX_BLOCK_SIZE > u64::MAX ==> r is None,
{
    blocks.checked_mul(UNIX_BLOCK_SIZE)
}

/// A character with the Unicode White_Space property.
pub open spec fn is_white_space(c: char) -> bool {
    let u = c as u32;
    (0x9 <= u && u <= 0xd) || u == 0x20 || u == 0x85 || u == 0xa0 || u == 0x1680 || (0x2000 <= u
        && u <= 0x200a) || u == 0x2028 || u == 0x2029 || u == 0x202f || u == 0x205f || u == 0x3000
}

/// `s` without its leading white space.
pub open spec fn trim_start(s: Seq<char>) -> Seq<char>
    decreases s.len(),
{
    if s.len() > 0 && is_white_space(s[0]) {
        trim_start(s.drop_first())
    } else {
        s
    }
}

/// `s` without its trailing white space.
pub open spec fn trim_end(s: Seq<char>) -> Seq<char>
    decreases s.len(),
{
    if s.len() > 0 && is_white_space(s.last()) {
        trim_end(s.drop_last())
    } else {
        s
    }
}

/// Relies on `str::trim`: it removes the leading and trailing characters that
/// have the Unicode White_Space property.
#[verifier::external_body]
fn trim(s: &str) -> (r: &str)
    ensures
        r@ == trim_end(trim_start(s@)),
{
    s.trim()
}

/// `s` is a non-empty run of ASCII decimal digits.
pub open spec fn is_digits(s: Seq<char>) -> bool {
    s.len() > 0 && forall|i: int| 0 <= i < s.len() ==> '0' as u32 <= #[trigger] (s[i] as u32) <= '9' as u32
}

/// The number that a run of decimal digits spells.
pub open spec fn digits_value(s: Seq<char>) -> nat
    decreases s.len(),
{
    if s.len() == 0 {
        0
    } else {
        digits_value(s.drop_last()) * 10 + ((s.last() as u32) - ('0' as u32)) as nat
    }
}

/// What `u64::from_str` makes of `s`: a number where `s` is an optional `+`
/// and then decimal digits whose value fits in 64 bits, and nothing otherwise.
pub open spec fn parsed_u64(s: Seq<char>) -> Option<u64> {
    let d = if s.len() > 0 && s[0] == '+' {
        s.drop_first()
    } else {
        s
    };
    if is_digits(d) && digits_value(d) <= u64::MAX {
        Some(digits_value(d) as u64)
    } else {
        None
    }
}

/// Relies on `u64::from_str`: an optional `+` and then decimal digits parse to
/// their value where it fits in 64 bits; every other text is an error.
#[verifier::external_body]
fn parse_u64(s: &str) -> (r: Option<u64>)
    ensures
        r == parsed_u64(s@),
{
    s.parse::<u64>().ok()
}

/// The size in bytes of a block device, from the text of the sysfs file that
/// holds its block count: the count, with white space around it.
pub fn block_device_size_from_sysfs(text: &str) -> (r: Option<u64>)
    ensures
        r == (match parsed_u64(trim_end(trim_start(text@))) {
            Some(blocks) => if blocks * UNIX_BLOCK_SIZE <= u64::MAX {
                Some((blocks * UNIX_BLOCK_SIZE) as u64)
            } else {
                None
            },
            None => None,
        }),
{
    match parse_u64(trim(text)) {
        Some(blocks) => block_device_size(blocks),
        None => None,
    }
}

/// The kinds of file that a path can name.
#[derive(Debug, Clone, Copy, PartialEq, Eq, Structural)]
pub enum FileType {
    Dir,
    File,
    Symlink,
    BlockDevice,
    CharDevice,
    Fifo,
    Socket,
}

} // verus!
