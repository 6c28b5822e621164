//! Byte-level helpers: big-endian 32-bit integers and plain byte copies.

use vstd::prelude::*;

verus! {

/// The four bytes of `n`, most significant first.
pub open spec fn be_u32(n: u32) -> Seq<u8> {
    seq![
        (n / 0x100_0000) as u8,
        (n / 0x1_0000 % 0x100) as u8,
        (n / 0x100 % 0x100) as u8,
        (n % 0x100) as u8,
    ]
}

/// The number that the first four bytes of `b` spell, most significant first.
pub open spec fn u32_of_be(b: Seq<u8>) -> u32 {
    (b[0] * 0x100_0000 + b[1] * 0x1_0000 + b[2] * 0x100 + b[3]) as u32
}

/// Reading back the big-endian bytes of a number gives the number.
pub proof fn lemma_u32_of_be_u32(n: u32)
    ensures
        be_u32(n).len() == 4,
        u32_of_be(be_u32(n)) == n,
{
}

/// Writing out the number that four bytes spell gives the four bytes.
pub proof fn lemma_be_u32_of_be(b: Seq<u8>)
    requires
        b.len() == 4,
    ensures
        be_u32(u32_of_be(b)) == b,
{
    assert(be_u32(u32_of_be(b)) =~= b);
}

/// Appends the big-endian bytes of `n` to `out`.
pub(crate) fn push_be_u32(out: &mut Vec<u8>, n: u32)
    ensures
        final(out)@ == old(out)@ + be_u32(n),
{
    out.push((n / 0x100_0000) as u8);
    out.push((n / 0x1_0000 % 0x100) as u8);
    out.push((n / 0x100 % 0x100) as u8);
    out.push((n % 0x100) as u8);
    assert(out@ =~= old(out)@ + be_u32(n));
}

/// Reads the big-endian number held in the four bytes of `bytes` from `at`.
pub(crate) fn read_be_u32(bytes: &Vec<u8>, at: usize) -> (n: u32)
    requires
        at + 4 <= bytes.len(),
    ensures
        n == u32_of_be(bytes@.subrange(at as int, at + 4)),
{
    let b0: u32 = bytes[at] as u32;
    let b1: u32 = bytes[at + 1] as u32;
    let b2: u32 = bytes[at + 2] as u32;
    let b3: u32 = bytes[at + 3] as u32;
    b0 * 0x100_0000 + b1 * 0x1_0000 + b2 * 0x100 + b3
}

/// Appends every byte of `src` to `out`.
pub(crate) fn push_all(out: &mut Vec<u8>, src: &Vec<u8>)
    ensures
        final(out)@ == old(out)@ + src@,
{
    let mut i: usize = 0;
    while i < src.len()
        invariant
            i <= src@.len(),
            out@ == old(out)@ + src@.subrange(0, i as int),
        decreases src@.len() - i,
    {
        out.push(src[i]);
        i += 1;
    }
    assert(src@.subrange(0, i as int) =~= src@);
}

/// A copy of the bytes of `bytes` from `start` up to `end`.
pub(crate) fn copy_range(bytes: &Vec<u8>, start: usize, end: usize) -> (out: Vec<u8>)
    requires
        start <= end <= bytes.len(),
    ensures
        out@ == bytes@.subrange(start as int, end as int),
{
    let mut out: Vec<u8> = Vec::new();
    let mut i: usize = start;
    while i < end
        invariant
            start <= i <= end <= bytes.len(),
            out@ == bytes@.subrange(start as int, i as int),
        decreases end - i,
    {
        out.push(bytes[i]);
        i += 1;
    }
    out
}

/// Whether `a` and `b` hold the same bytes.
pub(crate) fn same_bytes(a: &Vec<u8>, b: &Vec<u8>) -> (same: bool)
    ensures
        same == (a@ == b@),
{
    if a.len() != b.len() {
        return false;
    }
    let mut i: usize = 0;
    while i < a.len()
        invariant
            i <= a@.len(),
            a@.len() == b@.len(),
            forall|j: int| 0 <= j < i ==> a@[j] == b@[j],
        decreases a@.len() - i,
    {
        if a[i] != b[i] {
            return false;
        }
        i += 1;
    }
    assert(a@ =~= b@);
    true
}

} // verus!
