//! Enumerations and bitmasks decoded through a table of (tag, integer) pairs.

use vstd::prelude::*;
use crate::binary::Reader;
use crate::error::Error;
use crate::xdr::primitive::{I32, I32_SIZE, be_i32};

verus! {

/// The table behind an enumeration or a bitmask: each tag with its integer.
pub type EnumMapping<T, const N: usize> = [(T, i32); N];

/// The tag of the first entry of `m` whose integer is `v`, if any.
pub open spec fn lookup<T>(m: Seq<(T, i32)>, v: i32) -> Option<T>
    decreases m.len(),
{
    if m.len() == 0 {
        None
    } else if m[0].1 == v {
        Some(m[0].0)
    } else {
        lookup(m.drop_first(), v)
    }
}

/// What decoding the integer `v` through the enumeration table `m` gives.
pub open spec fn enum_decoded<T>(m: Seq<(T, i32)>, v: i32) -> Result<T, Error> {
    match lookup(m, v) {
        Some(t) => Ok(t),
        None => Err(Error::UnknownValue(v)),
    }
}

/// The tags of `m`, in table order, whose integer shares a set bit with `v`.
pub open spec fn selected<T>(m: Seq<(T, i32)>, v: i32) -> Seq<T>
    decreases m.len(),
{
    if m.len() == 0 {
        Seq::empty()
    } else {
        let rest = selected(m.drop_last(), v);
        if m.last().1 & v != 0 {
            rest.push(m.last().0)
        } else {
            rest
        }
    }
}

/// No two entries of `m` carry the same integer.
pub open spec fn distinct_values<T>(m: Seq<(T, i32)>) -> bool {
    forall|i: int, j: int| 0 <= i < m.len() && 0 <= j < m.len() && i != j ==> m[i].1 != m[j].1
}

/// Enumeration
///
/// Enumerations have the same representation as signed integers. It is an
/// error to decode as an enumeration any integer other than those that the
/// table assigns; where two entries share an integer, the first one counts.
#[derive(Debug)]
pub struct Enum<'a, T, const N: usize> {
    mapping: &'a EnumMapping<T, N>,
}

impl<'a, T: Copy, const N: usize> Enum<'a, T, N> {
    /// The table.
    pub closed spec fn mapping(&self) -> Seq<(T, i32)> {
        self.mapping@
    }

    /// An enumeration decoded through `mapping`.
    pub fn new(mapping: &'a EnumMapping<T, N>) -> (r: Self)
        ensures
            r.mapping() == mapping@,
    {
        Enum { mapping }
    }

    /// Reads an enumeration at the cursor. The four bytes are consumed also
    /// where their integer is not in the table.
    pub fn read(&self, r: &mut Reader) -> (res: Result<T, Error>)
        ensures
            final(r).bytes() == old(r).bytes(),
            old(r).can_read(I32_SIZE as nat) ==> res == enum_decoded(
                self.mapping(),
                be_i32(old(r).next_bytes(I32_SIZE as nat)) as i32,
            ) && final(r).pos() == old(r).pos() + I32_SIZE,
            !old(r).can_read(I32_SIZE as nat) ==> (res matches Err(Error::UnexpectedEof))
                && final(r).pos() == old(r).pos(),
    {
        let decode = |x: &[u8; I32_SIZE]| -> (d: Result<T, Error>)
            ensures
                d == enum_decoded(self.mapping(), be_i32(x@) as i32),
        { self.decode(x) };
        r.try_read_as::<T, I32_SIZE>(decode)
    }

    /// The tag of the first entry whose integer four bytes encode, or
    /// `UnknownValue` with that integer where no entry has it.
    pub fn decode(&self, x: &[u8; I32_SIZE]) -> (r: Result<T, Error>)
        ensures
            r == enum_decoded(self.mapping(), be_i32(x@) as i32),
    {
        let v: i32 = I32::decode(x).0;
        let ghost m = self.mapping@;
        assert(m.subrange(0, N as int) =~= m);
        let mut i: usize = 0;
        while i < N
            invariant
                m == self.mapping@,
                m.len() == N,
                v == be_i32(x@),
                0 <= i <= N,
                lookup(m, v) == lookup(m.subrange(i as int, N as int), v),
            decreases N - i,
        {
            assert(m.subrange(i as int, N as int).drop_first() =~= m.subrange(i + 1, N as int));
            assert(m.subrange(i as int, N as int)[0] == m[i as int]);
            if self.mapping[i].1 == v {
                return Ok(self.mapping[i].0);
            }
            i = i + 1;
        }
        Err(Error::UnknownValue(v))
    }
}

/// Bitmask
///
/// A set of tags carried by one XDR integer: each tag of the table is in the
/// set where its integer shares a set bit with the one read. Bits that no
/// entry names are ignored.
#[derive(Debug)]
pub struct Bitmask<'a, T, const N: usize> {
    mapping: &'a EnumMapping<T, N>,
}

impl<'a, T: Copy, const N: usize> Bitmask<'a, T, N> {
    /// The table.
    pub closed spec fn mapping(&self) -> Seq<(T, i32)> {
        self.mapping@
    }

    /// A bitmask decoded through `mapping`.
    pub fn new(mapping: &'a EnumMapping<T, N>) -> (r: Self)
        ensures
            r.mapping() == mapping@,
    {
        Bitmask { mapping }
    }

    /// Reads a bitmask at the cursor.
    pub fn read(&self, r: &mut Reader) -> (res: Result<Vec<T>, Error>)
        ensures
            final(r).bytes() == old(r).bytes(),
            res is Ok <==> old(r).can_read(I32_SIZE as nat),
            res matches Ok(ts) ==> ts@ == selected(
                self.mapping(),
                be_i32(old(r).next_bytes(I32_SIZE as nat)) as i32,
            ) && final(r).pos() == old(r).pos() + I32_SIZE,
            res is Err ==> (res matches Err(Error::UnexpectedEof)) && final(r).pos() == old(r).pos(),
    {
        let decode = |x: &[u8; I32_SIZE]| -> (d: Vec<T>)
            ensures
                d@ == selected(self.mapping(), be_i32(x@) as i32),
        { self.decode(x) };
        r.read_as::<Vec<T>, I32_SIZE>(decode)
    }

    /// The tags, in table order, whose integer shares a set bit with the one
    /// that four bytes encode.
    pub fn decode(&self, x: &[u8; I32_SIZE]) -> (r: Vec<T>)
        ensures
            r@ == selected(self.mapping(), be_i32(x@) as i32),
    {
        let v: i32 = I32::decode(x).0;
        let ghost m = self.mapping@;
        let mut out: Vec<T> = Vec::new();
        let mut i: usize = 0;
        while i < N
            invariant
                m == self.mapping@,
                m.len() == N,
                v == be_i32(x@),
                0 <= i <= N,
                out@ == selected(m.subrange(0, i as int), v),
            decreases N - i,
        {
            assert(m.subrange(0, i + 1).drop_last() =~= m.subrange(0, i as int));
            let (tag, bits) = self.mapping[i];
            if bits & v != 0 {
                out.push(tag);
            }
            i = i + 1;
        }
        assert(m.subrange(0, N as int) =~= m);
        out
    }
}

/// Round trip through an enumeration table whose integers are distinct: the
/// integer of each entry decodes to that entry's tag.
pub proof fn lemma_enum_round_trip<T>(m: Seq<(T, i32)>, k: int)
    requires
        distinct_values(m),
        0 <= k < m.len(),
    ensures
        enum_decoded(m, m[k].1) == Ok::<T, Error>(m[k].0),
    decreases m.len(),
{
    if k > 0 {
        let rest = m.drop_first();
        assert(m[0].1 != m[k].1);
        assert(rest[k - 1] == m[k]);
        lemma_enum_round_trip(rest, k - 1);
    }
}

/// An integer that no entry of an enumeration table carries fails to decode,
/// with the integer kept in the error.
pub proof fn lemma_enum_unknown<T>(m: Seq<(T, i32)>, v: i32)
    requires
        forall|k: int| 0 <= k < m.len() ==> m[k].1 != v,
    ensures
        enum_decoded(m, v) == Err::<T, Error>(Error::UnknownValue(v)),
    decreases m.len(),
{
    if m.len() > 0 {
        let rest = m.drop_first();
        assert forall|k: int| 0 <= k < rest.len() implies rest[k].1 != v by {
            assert(rest[k] == m[k + 1]);
        }
        lemma_enum_unknown(rest, v);
    }
}

/// Decoding a bitmask keeps exactly the tags whose integer shares a bit with
/// the value: the tag at `k` is among those decoded from `v` when its integer
/// and `v` share a set bit.
pub proof fn lemma_bitmask_selects<T>(m: Seq<(T, i32)>, v: i32, k: int)
    requires
        0 <= k < m.len(),
        m[k].1 & v != 0,
    ensures
        selected(m, v).contains(m[k].0),
    decreases m.len(),
{
    let rest = m.drop_last();
    if k == m.len() - 1 {
        assert(selected(m, v) == selected(rest, v).push(m[k].0));
        assert(selected(m, v)[selected(rest, v).len() as int] == m[k].0);
    } else {
        assert(rest[k] == m[k]);
        lemma_bitmask_selects(rest, v, k);
        let i = choose|i: int| 0 <= i < selected(rest, v).len() && selected(rest, v)[i] == m[k].0;
        if m.last().1 & v != 0 {
            assert(selected(m, v)[i] == m[k].0);
        } else {
            assert(selected(m, v)[i] == m[k].0);
        }
    }
}

/// Round trip through a bitmask table: the integer of each entry that has a
/// bit set decodes to a set that holds the entry's tag.
pub proof fn lemma_bitmask_round_trip<T>(m: Seq<(T, i32)>, k: int)
    requires
        0 <= k < m.len(),
        m[k].1 != 0,
    ensures
        selected(m, m[k].1).contains(m[k].0),
{
    let b = m[k].1;
    assert(b & b == b) by (bit_vector);
    lemma_bitmask_selects(m, b, k);
}

/// A value that shares no set bit with any entry of a bitmask table decodes
/// to the empty set.
pub proof fn lemma_bitmask_none<T>(m: Seq<(T, i32)>, v: i32)
    requires
        forall|k: int| 0 <= k < m.len() ==> m[k].1 & v == 0,
    ensures
        selected(m, v) == Seq::<T>::empty(),
    decreases m.len(),
{
    if m.len() > 0 {
        let rest = m.drop_last();
        assert forall|k: int| 0 <= k < rest.len() implies rest[k].1 & v == 0 by {
            assert(rest[k] == m[k]);
        }
        lemma_bitmask_none(rest, v);
    }
}

} // verus!
