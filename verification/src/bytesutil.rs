//! Small verified helpers on byte vectors.

use vstd::prelude::*;

verus! {

/// Compare two byte slices for equality.
pub fn bytes_eq(a: &[u8], b: &[u8]) -> (r: bool)
    ensures
        r == (a@ == b@),
{
    if a.len() != b.len() {
        assert(a@ != b@) by {
            assert(a@.len() != b@.len());
        }
        return false;
    }
    let n: usize = a.len();
    let mut i: usize = 0;
    while i < n
        invariant
            n == a@.len() && n == b@.len(),
            i <= n,
            forall|j: int| 0 <= j < i ==> a@[j] == b@[j],
        decreases n - i,
    {
        if a[i] != b[i] {
            return false;
        }
        i += 1;
    }
    assert(a@ =~= b@);
    true
}

/// Append every byte of `src` to `dst`.
pub fn extend_bytes(dst: &mut Vec<u8>, src: &[u8])
    ensures
        final(dst)@ == old(dst)@ + src@,
{
    let n: usize = src.len();
    let mut i: usize = 0;
    while i < n
        invariant
            n == src@.len(),
            i <= n,
            dst@ == old(dst)@ + src@.subrange(0, i as int),
        decreases n - i,
    {
        dst.push(src[i]);
        assert(dst@ =~= old(dst)@ + src@.subrange(0, (i + 1) as int));
        i += 1;
    }
    assert(dst@ =~= old(dst)@ + src@);
}

/// Copy a range of `src` out into a fresh vector.
pub fn sub_bytes(src: &Vec<u8>, start: usize, count: usize) -> (out: Vec<u8>)
    requires
        start + count <= src@.len(),
    ensures
        out@ == src@.subrange(start as int, start as int + count as int),
{
    let n: usize = src.len();
    let mut out: Vec<u8> = Vec::new();
    let mut i: usize = 0;
    while i < count
        invariant
            n == src@.len(),
            start + count <= src@.len(),
            i <= count,
            out@ == src@.subrange(start as int, start as int + i as int),
        decreases count - i,
    {
        out.push(src[start + i]);
        assert(out@ =~= src@.subrange(start as int, start as int + (i + 1) as int));
        i += 1;
    }
    out
}

/// Copy a byte slice into a fresh vector.
pub fn sub_bytes_slice(src: &[u8]) -> (out: Vec<u8>)
    ensures
        out@ == src@,
{
    let n: usize = src.len();
    let mut out: Vec<u8> = Vec::new();
    let mut i: usize = 0;
    while i < n
        invariant
            n == src@.len(),
            i <= n,
            out@ == src@.subrange(0, i as int),
        decreases n - i,
    {
        out.push(src[i]);
        assert(out@ =~= src@.subrange(0, (i + 1) as int));
        i += 1;
    }
    assert(out@ =~= src@);
    out
}

/// Copy a byte vector.
pub fn clone_bytes(src: &Vec<u8>) -> (out: Vec<u8>)
    ensures
        out@ == src@,
{
    let n: usize = src.len();
    let out = sub_bytes(src, 0, n);
    assert(out@ =~= src@);
    out
}

/// Read the little-endian `u64` stored at `off`.
pub fn read_u64_at(data: &Vec<u8>, off: usize) -> (x: u64)
    requires
        off + 8 <= data@.len(),
    ensures
        x == vstd::bytes::spec_u64_from_le_bytes(data@.subrange(off as int, off as int + 8)),
{
    let bytes = sub_bytes(data, off, 8);
    vstd::bytes::u64_from_le_bytes(bytes.as_slice())
}

/// Read the little-endian `u32` stored at `off`.
pub fn read_u32_at(data: &Vec<u8>, off: usize) -> (x: u32)
    requires
        off + 4 <= data@.len(),
    ensures
        x == vstd::bytes::spec_u32_from_le_bytes(data@.subrange(off as int, off as int + 4)),
{
    let bytes = sub_bytes(data, off, 4);
    vstd::bytes::u32_from_le_bytes(bytes.as_slice())
}

/// Relies on `String::from_utf8`: it succeeds exactly on valid UTF-8 input
/// and returns the string whose characters those bytes encode.
#[verifier::external_body]
pub(crate) fn utf8_to_string(bytes: &Vec<u8>) -> (r: Option<String>)
    ensures
        (r is Some) <==> vstd::utf8::valid_utf8(bytes@),
        r matches Some(s) ==> s@ == vstd::utf8::decode_utf8(bytes@),
{
    String::from_utf8(bytes.clone()).ok()
}

} // verus!
