//! Big-endian integer encoding and byte-buffer helpers shared by the wire codecs.

use vstd::prelude::*;

verus! {

/// The four big-endian bytes of `x`.
pub open spec fn be_u32_bytes(x: u32) -> Seq<u8> {
    seq![
        (x / 0x100_0000) as u8,
        ((x / 0x1_0000) % 0x100) as u8,
        ((x / 0x100) % 0x100) as u8,
        (x % 0x100) as u8,
    ]
}

/// The eight big-endian bytes of `x`.
pub open spec fn be_u64_bytes(x: u64) -> Seq<u8> {
    be_u32_bytes((x / 0x1_0000_0000) as u32) + be_u32_bytes((x % 0x1_0000_0000) as u32)
}

/// The big-endian `u32` stored in `s` at `off` (meaningful when `off + 4 <= s.len()`).
pub open spec fn be_u32_at(s: Seq<u8>, off: int) -> u32 {
    (s[off] * 0x100_0000 + s[off + 1] * 0x1_0000 + s[off + 2] * 0x100 + s[off + 3]) as u32
}

/// The big-endian `u64` stored in `s` at `off` (meaningful when `off + 8 <= s.len()`).
pub open spec fn be_u64_at(s: Seq<u8>, off: int) -> u64 {
    (be_u32_at(s, off) * 0x1_0000_0000 + be_u32_at(s, off + 4)) as u64
}

/// A length-prefixed field: the 32-bit big-endian length followed by the bytes.
pub open spec fn string_field(b: Seq<u8>) -> Seq<u8> {
    be_u32_bytes(b.len() as u32) + b
}

/// Decoding the encoding of a `u32` gives it back.
pub proof fn lemma_be_u32_roundtrip(x: u32)
    ensures
        be_u32_at(be_u32_bytes(x), 0) == x,
        be_u32_bytes(x).len() == 4,
{
    assert(x / 0x100_0000 < 0x100 && (x / 0x100_0000) * 0x100_0000 + ((x / 0x1_0000) % 0x100) * 0x1_0000
        + ((x / 0x100) % 0x100) * 0x100 + x % 0x100 == x) by (bit_vector);
    let b = be_u32_bytes(x);
    assert(b[0] == x / 0x100_0000);
    assert(b[1] == (x / 0x1_0000) % 0x100);
    assert(b[2] == (x / 0x100) % 0x100);
    assert(b[3] == x % 0x100);
}

/// Decoding the encoding of a `u32` inside a larger buffer gives it back.
pub proof fn lemma_be_u32_roundtrip_at(pre: Seq<u8>, x: u32, post: Seq<u8>)
    ensures
        be_u32_at(pre + be_u32_bytes(x) + post, pre.len() as int) == x,
{
    lemma_be_u32_roundtrip(x);
    let s = pre + be_u32_bytes(x) + post;
    let b = be_u32_bytes(x);
    let n = pre.len() as int;
    assert(s[n] == b[0] && s[n + 1] == b[1] && s[n + 2] == b[2] && s[n + 3] == b[3]);
}

/// Decoding the encoding of a `u64` inside a larger buffer gives it back.
pub proof fn lemma_be_u64_roundtrip_at(pre: Seq<u8>, x: u64, post: Seq<u8>)
    ensures
        be_u64_at(pre + be_u64_bytes(x) + post, pre.len() as int) == x,
{
    let hi = (x / 0x1_0000_0000) as u32;
    let lo = (x % 0x1_0000_0000) as u32;
    let s = pre + be_u64_bytes(x) + post;
    assert(s =~= pre + be_u32_bytes(hi) + (be_u32_bytes(lo) + post));
    lemma_be_u32_roundtrip_at(pre, hi, be_u32_bytes(lo) + post);
    assert(s =~= (pre + be_u32_bytes(hi)) + be_u32_bytes(lo) + post);
    lemma_be_u32_roundtrip_at(pre + be_u32_bytes(hi), lo, post);
    assert(hi * 0x1_0000_0000 + lo == x);
}

/// Appends the big-endian bytes of `x`.
pub fn push_u32_be(out: &mut Vec<u8>, x: u32)
    ensures
        final(out)@ == old(out)@ + be_u32_bytes(x),
{
    out.push((x / 0x100_0000) as u8);
    out.push(((x / 0x1_0000) % 0x100) as u8);
    out.push(((x / 0x100) % 0x100) as u8);
    out.push((x % 0x100) as u8);
    assert(final(out)@ =~= old(out)@ + be_u32_bytes(x)) by {
        assert(out@ =~= old(out)@ + be_u32_bytes(x));
    }
}

/// Appends the big-endian bytes of `x`.
pub fn push_u64_be(out: &mut Vec<u8>, x: u64)
    ensures
        final(out)@ == old(out)@ + be_u64_bytes(x),
{
    let ghost start = out@;
    push_u32_be(out, (x / 0x1_0000_0000) as u32);
    push_u32_be(out, (x % 0x1_0000_0000) as u32);
    assert(out@ =~= start + be_u64_bytes(x));
}

/// Appends every byte of `src`.
pub fn push_bytes(out: &mut Vec<u8>, src: &[u8])
    ensures
        final(out)@ == old(out)@ + src@,
{
    let ghost start = out@;
    let mut i: usize = 0;
    while i < src.len()
        invariant
            i <= src.len(),
            out@ == start + src@.subrange(0, i as int),
        decreases src.len() - i,
    {
        out.push(src[i]);
        i = i + 1;
        assert(out@ =~= start + src@.subrange(0, i as int));
    }
    assert(src@.subrange(0, src.len() as int) =~= src@);
}

/// Appends a length-prefixed field holding `src`.
pub fn push_string_field(out: &mut Vec<u8>, src: &[u8])
    ensures
        final(out)@ == old(out)@ + string_field(src@),
{
    let ghost start = out@;
    push_u32_be(out, src.len() as u32);
    push_bytes(out, src);
    assert(out@ =~= start + string_field(src@));
}

/// Reads the big-endian `u32` at `off`.
pub fn read_u32_be(data: &[u8], off: usize) -> (r: u32)
    requires
        off + 4 <= data.len(),
    ensures
        r == be_u32_at(data@, off as int),
{
    let b0 = data[off] as u32;
    let b1 = data[off + 1] as u32;
    let b2 = data[off + 2] as u32;
    let b3 = data[off + 3] as u32;
    b0 * 0x100_0000 + b1 * 0x1_0000 + b2 * 0x100 + b3
}

/// Reads the big-endian `u64` at `off`.
pub fn read_u64_be(data: &[u8], off: usize) -> (r: u64)
    requires
        off + 8 <= data.len(),
    ensures
        r == be_u64_at(data@, off as int),
{
    let hi = read_u32_be(data, off) as u64;
    let lo = read_u32_be(data, off + 4) as u64;
    hi * 0x1_0000_0000 + lo
}

/// Copies `data[start..end]` into a new vector.
pub fn copy_range(data: &[u8], start: usize, end: usize) -> (r: Vec<u8>)
    requires
        start <= end <= data@.len(),
    ensures
        r@ == data@.subrange(start as int, end as int),
{
    let mut r: Vec<u8> = Vec::new();
    let mut i = start;
    while i < end
        invariant
            start <= i <= end <= data@.len(),
            r@ == data@.subrange(start as int, i as int),
        decreases end - i,
    {
        r.push(data[i]);
        i = i + 1;
        assert(r@ =~= data@.subrange(start as int, i as int));
    }
    r
}

} // verus!
