//! Byte-level helpers shared by the record and instruction layouts.
//!
//! Every integer wider than a byte is written little-endian.

use vstd::bytes::{
    lemma_auto_spec_u64_to_from_le_bytes, spec_u64_from_le_bytes, spec_u64_to_le_bytes,
    u64_from_le_bytes, u64_to_le_bytes,
};
use vstd::prelude::*;
use vstd::slice::slice_subrange;

verus! {

/// The eight bytes of `x`, least significant first.
pub open spec fn u64_bytes(x: u64) -> Seq<u8> {
    spec_u64_to_le_bytes(x)
}

/// The integer whose eight little-endian bytes start at `offset`.
pub open spec fn u64_at(bytes: Seq<u8>, offset: int) -> u64 {
    spec_u64_from_le_bytes(bytes.subrange(offset, offset + 8))
}

/// `data` with the bytes from `offset` on replaced by `bytes`; the rest stays.
pub open spec fn patched(data: Seq<u8>, offset: int, bytes: Seq<u8>) -> Seq<u8> {
    data.subrange(0, offset) + bytes + data.subrange(offset + bytes.len(), data.len() as int)
}

/// `n` zero bytes.
pub open spec fn zeros(n: nat) -> Seq<u8> {
    Seq::new(n, |i: int| 0u8)
}

/// Writing an integer and reading it back gives the integer; eight bytes
/// that were read as an integer are the bytes that writing it gives.
pub proof fn lemma_u64_round_trip()
    ensures
        forall|x: u64| #[trigger] u64_bytes(x).len() == 8,
        forall|x: u64| spec_u64_from_le_bytes(#[trigger] u64_bytes(x)) == x,
        forall|s: Seq<u8>| s.len() == 8 ==> u64_bytes(#[trigger] spec_u64_from_le_bytes(s)) == s,
{
    lemma_auto_spec_u64_to_from_le_bytes();
}

/// Puts `bytes` at the end of `out`.
pub(crate) fn append(out: &mut Vec<u8>, bytes: &[u8])
    ensures
        final(out)@ == old(out)@ + bytes@,
{
    let ghost before = out@;
    let n = bytes.len();
    let mut i: usize = 0;
    while i < n
        invariant
            i <= n,
            n == bytes@.len(),
            out@ == before + bytes@.subrange(0, i as int),
        decreases n - i,
    {
        out.push(bytes[i]);
        assert(bytes@.subrange(0, i + 1) =~= bytes@.subrange(0, i as int).push(bytes@[i as int]));
        i = i + 1;
    }
    assert(bytes@.subrange(0, n as int) =~= bytes@);
}

/// Puts the eight little-endian bytes of `x` at the end of `out`.
pub(crate) fn append_u64(out: &mut Vec<u8>, x: u64)
    ensures
        final(out)@ == old(out)@ + u64_bytes(x),
{
    let le = u64_to_le_bytes(x);
    append(out, le.as_slice());
}

/// Reads the little-endian integer that starts at `offset`.
pub(crate) fn read_u64(bytes: &[u8], offset: usize) -> (x: u64)
    requires
        offset + 8 <= bytes@.len(),
    ensures
        x == u64_at(bytes@, offset as int),
{
    let len = bytes.len();
    assert(offset + 8 <= len);
    u64_from_le_bytes(slice_subrange(bytes, offset, offset + 8))
}

/// A copy of the bytes from `start` up to `end`.
pub(crate) fn copy_range(bytes: &[u8], start: usize, end: usize) -> (out: Vec<u8>)
    requires
        start <= end <= bytes@.len(),
    ensures
        out@ == bytes@.subrange(start as int, end as int),
{
    let mut out: Vec<u8> = Vec::new();
    append(&mut out, slice_subrange(bytes, start, end));
    assert(out@ =~= bytes@.subrange(start as int, end as int));
    out
}

/// A copy of `data` in which `bytes` stand at `offset`.
pub(crate) fn patch(data: &[u8], offset: usize, bytes: &[u8]) -> (out: Vec<u8>)
    requires
        offset + bytes@.len() <= data@.len(),
    ensures
        out@ == patched(data@, offset as int, bytes@),
        out@.len() == data@.len(),
{
    let len = data.len();
    assert(offset + bytes@.len() <= len);
    let mut out: Vec<u8> = Vec::new();
    append(&mut out, slice_subrange(data, 0, offset));
    append(&mut out, bytes);
    append(&mut out, slice_subrange(data, offset + bytes.len(), len));
    out
}

} // verus!
