//! Little-endian integers in byte buffers.
use vstd::prelude::*;
use vstd::bytes::{
    spec_u32_from_le_bytes, spec_u32_to_le_bytes, spec_u64_from_le_bytes, spec_u64_to_le_bytes,
};

verus! {

/// `d` with the bytes from `at` on replaced by `s`.
pub open spec fn splice(d: Seq<u8>, at: int, s: Seq<u8>) -> Seq<u8> {
    d.take(at) + s + d.skip(at + s.len())
}

/// The `u32` stored little-endian at `at` in `s`.
pub open spec fn u32_at(s: Seq<u8>, at: int) -> u32 {
    spec_u32_from_le_bytes(s.subrange(at, at + 4))
}

/// The `u64` stored little-endian at `at` in `s`.
pub open spec fn u64_at(s: Seq<u8>, at: int) -> u64 {
    spec_u64_from_le_bytes(s.subrange(at, at + 8))
}

/// The byte that stores a flag: 1 for set, 0 for clear.
pub open spec fn flag_byte(b: bool) -> u8 {
    if b {
        1
    } else {
        0
    }
}

/// Overwrites `dst` from `at` on with `src`.
pub fn write_bytes(dst: &mut [u8], at: usize, src: &[u8])
    requires
        at + src@.len() <= old(dst)@.len(),
    ensures
        final(dst)@ == splice(old(dst)@, at as int, src@),
{
    let n = src.len();
    let m = dst.len();
    let mut i: usize = 0;
    while i < n
        invariant
            0 <= i <= n,
            n == src@.len(),
            m == dst@.len(),
            at + n <= dst@.len(),
            dst@.len() == old(dst)@.len(),
            forall|j: int| 0 <= j < at ==> dst@[j] == old(dst)@[j],
            forall|j: int| at + n <= j < dst@.len() ==> dst@[j] == old(dst)@[j],
            forall|j: int| 0 <= j < i ==> dst@[at + j] == src@[j],
            forall|j: int| at + i <= j < at + n ==> dst@[j] == old(dst)@[j],
        decreases n - i,
    {
        dst[at + i] = src[i];
        i = i + 1;
    }
    assert(dst@ =~= splice(old(dst)@, at as int, src@));
}

/// Appends `src` to `buf`.
pub fn append_bytes(buf: &mut Vec<u8>, src: &[u8])
    ensures
        final(buf)@ == old(buf)@ + src@,
{
    let n = src.len();
    let mut i: usize = 0;
    while i < n
        invariant
            0 <= i <= n,
            n == src@.len(),
            buf@ == old(buf)@ + src@.take(i as int),
        decreases n - i,
    {
        buf.push(src[i]);
        i = i + 1;
        assert(buf@ =~= old(buf)@ + src@.take(i as int));
    }
    assert(src@.take(n as int) =~= src@);
}

/// Reads the `u32` stored little-endian at `at` in `src`.
pub fn read_u32(src: &[u8], at: usize) -> (x: u32)
    requires
        at + 4 <= src@.len(),
    ensures
        x == u32_at(src@, at as int),
{
    let _n = src.len();
    vstd::bytes::u32_from_le_bytes(vstd::slice::slice_subrange(src, at, at + 4))
}

/// Reads the `u64` stored little-endian at `at` in `src`.
pub fn read_u64(src: &[u8], at: usize) -> (x: u64)
    requires
        at + 8 <= src@.len(),
    ensures
        x == u64_at(src@, at as int),
{
    let _n = src.len();
    vstd::bytes::u64_from_le_bytes(vstd::slice::slice_subrange(src, at, at + 8))
}

/// Appends the little-endian bytes of `x` to `buf`.
pub fn append_u32(buf: &mut Vec<u8>, x: u32)
    ensures
        final(buf)@ == old(buf)@ + spec_u32_to_le_bytes(x),
{
    let b = vstd::bytes::u32_to_le_bytes(x);
    append_bytes(buf, b.as_slice());
}

/// Appends the little-endian bytes of `x` to `buf`.
pub fn append_u64(buf: &mut Vec<u8>, x: u64)
    ensures
        final(buf)@ == old(buf)@ + spec_u64_to_le_bytes(x),
{
    let b = vstd::bytes::u64_to_le_bytes(x);
    append_bytes(buf, b.as_slice());
}

/// Reading back what `spec_u64_to_le_bytes` wrote, at any offset.
pub proof fn lemma_u64_roundtrip(prefix: Seq<u8>, x: u64, suffix: Seq<u8>)
    ensures
        u64_at(prefix + spec_u64_to_le_bytes(x) + suffix, prefix.len() as int) == x,
{
    vstd::bytes::lemma_auto_spec_u64_to_from_le_bytes();
    let s = prefix + spec_u64_to_le_bytes(x) + suffix;
    assert(s.subrange(prefix.len() as int, prefix.len() + 8int) =~= spec_u64_to_le_bytes(x));
}

/// Reading back what `spec_u32_to_le_bytes` wrote, at any offset.
pub proof fn lemma_u32_roundtrip(prefix: Seq<u8>, x: u32, suffix: Seq<u8>)
    ensures
        u32_at(prefix + spec_u32_to_le_bytes(x) + suffix, prefix.len() as int) == x,
{
    vstd::bytes::lemma_auto_spec_u32_to_from_le_bytes();
    let s = prefix + spec_u32_to_le_bytes(x) + suffix;
    assert(s.subrange(prefix.len() as int, prefix.len() + 4int) =~= spec_u32_to_le_bytes(x));
}

/// Writing back what was read gives the bytes that were read.
pub proof fn lemma_u64_bytes_of_read(s: Seq<u8>, at: int)
    requires
        0 <= at,
        at + 8 <= s.len(),
    ensures
        spec_u64_to_le_bytes(u64_at(s, at)) == s.subrange(at, at + 8),
{
    vstd::bytes::lemma_auto_spec_u64_to_from_le_bytes();
    let t = s.subrange(at, at + 8);
    assert(spec_u64_to_le_bytes(spec_u64_from_le_bytes(t)) == t);
}

/// Writing back what was read gives the bytes that were read.
pub proof fn lemma_u32_bytes_of_read(s: Seq<u8>, at: int)
    requires
        0 <= at,
        at + 4 <= s.len(),
    ensures
        spec_u32_to_le_bytes(u32_at(s, at)) == s.subrange(at, at + 4),
{
    vstd::bytes::lemma_auto_spec_u32_to_from_le_bytes();
    let t = s.subrange(at, at + 4);
    assert(spec_u32_to_le_bytes(spec_u32_from_le_bytes(t)) == t);
}

/// The encodings have their fixed lengths.
pub proof fn lemma_le_bytes_len(x32: u32, x64: u64)
    ensures
        spec_u32_to_le_bytes(x32).len() == 4,
        spec_u64_to_le_bytes(x64).len() == 8,
{
    vstd::bytes::lemma_auto_spec_u32_to_from_le_bytes();
    vstd::bytes::lemma_auto_spec_u64_to_from_le_bytes();
}

} // verus!
