//! A seekable reader over a source of bytes, with exact reads.

use vstd::prelude::*;
use vstd::arithmetic::div_mod::{
    lemma_div_multiples_vanish_fancy, lemma_fundamental_div_mod, lemma_mod_multiples_vanish,
    lemma_small_mod,
};
use vstd::arithmetic::power2::{pow2, lemma2_to64, lemma_pow2_pos, lemma_pow2_strictly_increases};
use vstd::bits::{low_bits_mask, lemma_u64_low_bits_mask_is_mod};
use crate::error::Error;

verus! {

/// A position to seek to, as in `std::io::SeekFrom`.
#[derive(Debug, Clone, Copy, PartialEq, Eq, Structural)]
pub enum SeekFrom {
    /// That many bytes after the start of the source.
    Start(u64),
    /// That many bytes after (or, if negative, before) the end of the source.
    End(i64),
    /// That many bytes after (or, if negative, before) the cursor.
    Current(i64),
}

/// `n` is a power of two.
pub open spec fn is_power_of_two(n: u32) -> bool {
    exists|k: nat| pow2(k) == n
}

/// The least multiple of `to` that is not below `pos`.
pub open spec fn align_up(pos: int, to: int) -> int {
    ((pos + to - 1) / to) * to
}

/// The array of `N` bytes whose view is `s`, where `s` has `N` bytes.
pub open spec fn as_array<const N: usize>(s: Seq<u8>) -> [u8; N] {
    choose|a: [u8; N]| a@ == s
}

/// Reads bytes in order from a source that it owns, with a cursor that may
/// stand anywhere from the start of the source on, also past its end (reads
/// from there fail).
///
/// Every read either hands out all the bytes asked for and moves the cursor
/// past them, or fails and leaves the cursor where it was.
#[derive(Debug)]
pub struct Reader {
    source: Vec<u8>,
    pos: u64,
}

impl Reader {
    /// The bytes of the source.
    pub closed spec fn bytes(&self) -> Seq<u8> {
        self.source@
    }

    /// The cursor: the offset from the start of the source of the next byte
    /// to read.
    pub closed spec fn pos(&self) -> nat {
        self.pos as nat
    }

    /// `n` bytes can be read at the cursor.
    pub open spec fn can_read(&self, n: nat) -> bool {
        self.pos() + n <= self.bytes().len()
    }

    /// The `n` bytes at the cursor.
    pub open spec fn next_bytes(&self, n: nat) -> Seq<u8> {
        self.bytes().subrange(self.pos() as int, (self.pos() + n) as int)
    }

    /// Where a seek to `from` would put the cursor.
    pub open spec fn seek_target(&self, from: SeekFrom) -> int {
        match from {
            SeekFrom::Start(n) => n as int,
            SeekFrom::End(d) => self.bytes().len() + d,
            SeekFrom::Current(d) => self.pos() + d,
        }
    }

    /// A reader over `source`, with the cursor at its start.
    pub fn new(source: Vec<u8>) -> (r: Self)
        ensures
            r.bytes() == source@,
            r.pos() == 0,
    {
        Reader { source, pos: 0 }
    }

    /// The cursor.
    pub fn position(&self) -> (r: u64)
        ensures
            r == self.pos(),
    {
        self.pos
    }

    /// Fills `buf` with the bytes at the cursor and moves the cursor past them.
    /// Fails with `UnexpectedEof`, and changes nothing, where the source holds
    /// fewer bytes than `buf` from the cursor on.
    pub fn read(&mut self, buf: &mut [u8]) -> (r: Result<(), Error>)
        ensures
            final(self).bytes() == old(self).bytes(),
            r is Ok <==> old(self).can_read(old(buf)@.len()),
            r is Ok ==> final(buf)@ == old(self).next_bytes(old(buf)@.len())
                && final(self).pos() == old(self).pos() + old(buf)@.len(),
            r is Err ==> r == Err::<(), Error>(Error::UnexpectedEof)
                && final(self).pos() == old(self).pos() && final(buf)@ == old(buf)@,
    {
        let len: usize = buf.len();
        let size: u64 = self.source.len() as u64;
        if self.pos > size || len as u64 > size - self.pos {
            return Err(Error::UnexpectedEof);
        }
        let start: usize = self.pos as usize;
        assert(start + len <= self.source.len());
        let mut i: usize = 0;
        while i < len
            invariant
                len == buf@.len(),
                start + len <= self.source.len(),
                start == self.pos,
                0 <= i <= len,
                forall|j: int| 0 <= j < i ==> buf@[j] == self.source@[start + j],
            decreases len - i,
        {
            buf[i] = self.source[start + i];
            i = i + 1;
        }
        assert(buf@ =~= self.source@.subrange(start as int, start + len));
        self.pos = self.pos + len as u64;
        Ok(())
    }

    /// Moves the cursor to `from` and returns its new place. Fails with
    /// `InvalidSeek`, and changes nothing, where that place would lie before
    /// the start of the source or past the largest 64-bit offset.
    pub fn seek(&mut self, from: SeekFrom) -> (r: Result<u64, Error>)
        ensures
            final(self).bytes() == old(self).bytes(),
            r is Ok <==> 0 <= old(self).seek_target(from) <= u64::MAX,
            r matches Ok(p) ==> p == old(self).seek_target(from) && final(self).pos() == p,
            r is Err ==> r == Err::<u64, Error>(Error::InvalidSeek)
                && final(self).pos() == old(self).pos(),
    {
        let target: Option<u64> = match from {
            SeekFrom::Start(n) => Some(n),
            SeekFrom::End(d) => (self.source.len() as u64).checked_add_signed(d),
            SeekFrom::Current(d) => self.pos.checked_add_signed(d),
        };
        match target {
            Some(p) => {
                self.pos = p;
                Ok(p)
            },
            None => Err(Error::InvalidSeek),
        }
    }

    /// Moves the cursor `offset` bytes forward, reading nothing, and returns
    /// its new place. Fails with `InvalidSeek`, and changes nothing, where that
    /// place would lie past the largest 64-bit offset.
    pub fn skip(&mut self, offset: u32) -> (r: Result<u64, Error>)
        ensures
            final(self).bytes() == old(self).bytes(),
            r is Ok <==> old(self).pos() + offset <= u64::MAX,
            r matches Ok(p) ==> p == old(self).pos() + offset && final(self).pos() == p,
            r is Err ==> r == Err::<u64, Error>(Error::InvalidSeek)
                && final(self).pos() == old(self).pos(),
    {
        self.seek(SeekFrom::Current(offset as i64))
    }

    /// Moves the cursor forward to the next multiple of `to`, counted from the
    /// start of the source (nowhere, if it stands on one), and returns its new
    /// place. Fails with `InvalidSeek`, and changes nothing, where the sum of
    /// the cursor and `to - 1` does not fit in 64 bits.
    pub fn align(&mut self, to: u32) -> (r: Result<u64, Error>)
        requires
            is_power_of_two(to),
        ensures
            final(self).bytes() == old(self).bytes(),
            r is Ok <==> old(self).pos() + to - 1 <= u64::MAX,
            r matches Ok(p) ==> p == align_up(old(self).pos() as int, to as int)
                && final(self).pos() == p,
            r is Err ==> r == Err::<u64, Error>(Error::InvalidSeek)
                && final(self).pos() == old(self).pos(),
    {
        proof {
            let k = choose|k: nat| pow2(k) == to;
            lemma_pow2_pos(k);
        }
        let to: u64 = to as u64;
        let pos: u64 = self.pos;
        if pos > u64::MAX - (to - 1) {
            return Err(Error::InvalidSeek);
        }
        let dest: u64 = (pos + (to - 1)) & !(to - 1);
        proof {
            lemma_mask_rounds_down((pos + (to - 1)) as u64, to, (to - 1) as u64);
            lemma_align_up_bounds(pos as int, to as int);
        }
        let amount: u32 = (dest - pos) as u32;
        self.skip(amount)
    }

    /// Reads the `N` bytes at the cursor and hands them to `f`.
    pub fn read_as<T, const N: usize>(&mut self, f: impl FnOnce(&[u8; N]) -> T) -> (r: Result<T, Error>)
        requires
            forall|b: [u8; N]| f.requires((&b,)),
        ensures
            final(self).bytes() == old(self).bytes(),
            r is Ok <==> old(self).can_read(N as nat),
            r matches Ok(t) ==> f.ensures((&as_array::<N>(old(self).next_bytes(N as nat)),), t)
                && as_array::<N>(old(self).next_bytes(N as nat))@ == old(self).next_bytes(N as nat)
                && final(self).pos() == old(self).pos() + N,
            r is Err ==> (r matches Err(Error::UnexpectedEof)) && final(self).pos() == old(self).pos(),
    {
        let mut buf: [u8; N] = [0u8; N];
        self.read(&mut buf)?;
        proof {
            lemma_as_array(buf);
        }
        Ok(f(&buf))
    }

    /// Reads the `N` bytes at the cursor and hands them to `f`, whose failure
    /// becomes the reader's. The bytes are consumed either way.
    pub fn try_read_as<T, const N: usize>(
        &mut self,
        f: impl FnOnce(&[u8; N]) -> Result<T, Error>,
    ) -> (r: Result<T, Error>)
        requires
            forall|b: [u8; N]| f.requires((&b,)),
        ensures
            final(self).bytes() == old(self).bytes(),
            old(self).can_read(N as nat) ==> f.ensures((&as_array::<N>(old(self).next_bytes(N as nat)),), r)
                && as_array::<N>(old(self).next_bytes(N as nat))@ == old(self).next_bytes(N as nat)
                && final(self).pos() == old(self).pos() + N,
            !old(self).can_read(N as nat) ==> (r matches Err(Error::UnexpectedEof))
                && final(self).pos() == old(self).pos(),
    {
        let mut buf: [u8; N] = [0u8; N];
        self.read(&mut buf)?;
        proof {
            lemma_as_array(buf);
        }
        f(&buf)
    }

    /// Reads the `len` bytes at the cursor and hands them to `f`.
    pub fn read_to<T>(&mut self, len: usize, f: impl FnOnce(Vec<u8>) -> T) -> (r: Result<T, Error>)
        requires
            forall|b: Vec<u8>| b@.len() == len ==> f.requires((b,)),
        ensures
            final(self).bytes() == old(self).bytes(),
            r is Ok <==> old(self).can_read(len as nat),
            r matches Ok(t) ==> (exists|b: Vec<u8>| b@ == old(self).next_bytes(len as nat) && f.ensures((b,), t))
                && final(self).pos() == old(self).pos() + len,
            r is Err ==> (r matches Err(Error::UnexpectedEof)) && final(self).pos() == old(self).pos(),
    {
        let mut buf: Vec<u8> = vec![0u8; len];
        self.read(buf.as_mut_slice())?;
        let ghost b = buf;
        let t = f(buf);
        assert(b@ == old(self).next_bytes(len as nat) && f.ensures((b,), t));
        Ok(t)
    }

    /// Reads the `len` bytes at the cursor and hands them to `f`, whose failure
    /// becomes the reader's. The bytes are consumed either way.
    pub fn try_read_to<T>(&mut self, len: usize, f: impl FnOnce(Vec<u8>) -> Result<T, Error>) -> (r: Result<T, Error>)
        requires
            forall|b: Vec<u8>| b@.len() == len ==> f.requires((b,)),
        ensures
            final(self).bytes() == old(self).bytes(),
            old(self).can_read(len as nat) ==> (exists|b: Vec<u8>| b@ == old(self).next_bytes(len as nat) && f.ensures((b,), r))
                && final(self).pos() == old(self).pos() + len,
            !old(self).can_read(len as nat) ==> (r matches Err(Error::UnexpectedEof))
                && final(self).pos() == old(self).pos(),
    {
        let mut buf: Vec<u8> = vec![0u8; len];
        self.read(buf.as_mut_slice())?;
        let ghost b = buf;
        let r = f(buf);
        assert(b@ == old(self).next_bytes(len as nat) && f.ensures((b,), r));
        r
    }
}

/// An array is the array of its own bytes.
pub proof fn lemma_as_array<const N: usize>(a: [u8; N])
    ensures
        as_array::<N>(a@) == a,
{
    let b = as_array::<N>(a@);
    assert(b@ == a@);
    assert(b =~= a);
}

/// Clearing the bits below a power of two `to` rounds down to a multiple of it.
proof fn lemma_mask_rounds_down(x: u64, to: u64, mask: u64)
    requires
        0 < to <= u32::MAX,
        is_power_of_two(to as u32),
        mask == to - 1,
    ensures
        x & !mask == x - x % to,
{
    let k = choose|k: nat| pow2(k) == to as u32;
    lemma2_to64();
    if k > 32 {
        lemma_pow2_strictly_increases(32, k);
    }
    assert(low_bits_mask(k) == mask);
    lemma_u64_low_bits_mask_is_mod(x, k);
    assert(x & !mask == x - (x & mask)) by (bit_vector);
}

/// What `align_up` is: the multiple of `to` in `[pos, pos + to)`, also
/// reached by rounding `pos + to - 1` down.
pub proof fn lemma_align_up_bounds(pos: int, to: int)
    requires
        pos >= 0,
        to > 0,
    ensures
        align_up(pos, to) == (pos + to - 1) - (pos + to - 1) % to,
        align_up(pos, to) % to == 0,
        pos <= align_up(pos, to) < pos + to,
{
    let x = pos + to - 1;
    lemma_fundamental_div_mod(x, to);
    assert(align_up(pos, to) == (x / to) * to);
    assert((x / to) * to == to * (x / to)) by (nonlinear_arith);
    lemma_div_multiples_vanish_fancy(x / to, 0, to);
    assert(align_up(pos, to) % to == 0) by {
        vstd::arithmetic::div_mod::lemma_mod_multiples_basic(x / to, to);
    }
}

/// Aligning a position that is already aligned leaves it where it is; so
/// aligning twice in a row to the same boundary is aligning once.
pub proof fn lemma_align_idempotent(pos: int, to: int)
    requires
        pos >= 0,
        to > 0,
    ensures
        align_up(align_up(pos, to), to) == align_up(pos, to),
{
    let a = align_up(pos, to);
    lemma_align_up_bounds(pos, to);
    lemma_align_up_bounds(a, to);
    let q = a / to;
    lemma_fundamental_div_mod(a, to);
    lemma_mod_multiples_vanish(q, to - 1, to);
    lemma_small_mod((to - 1) as nat, to as nat);
}

} // verus!
