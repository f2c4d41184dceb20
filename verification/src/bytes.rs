//! Byte-level building blocks of the signed descriptor transcript: big-endian integer encodings,
//! appending to a buffer, and comparing byte strings.

use vstd::prelude::*;

verus! {

/// The big-endian encoding of a `u32` (four bytes, most significant first).
pub open spec fn be32(x: u32) -> Seq<u8> {
    seq![(x >> 24u32) as u8, (x >> 16u32) as u8, (x >> 8u32) as u8, x as u8]
}

/// The big-endian encoding of a `u64` (eight bytes, most significant first).
pub open spec fn be64(x: u64) -> Seq<u8> {
    seq![
        (x >> 56u64) as u8,
        (x >> 48u64) as u8,
        (x >> 40u64) as u8,
        (x >> 32u64) as u8,
        (x >> 24u64) as u8,
        (x >> 16u64) as u8,
        (x >> 8u64) as u8,
        x as u8,
    ]
}

/// Distinct `u32` values have distinct big-endian encodings.
pub proof fn lemma_be32_injective(x: u32, y: u32)
    ensures
        be32(x) == be32(y) ==> x == y,
{
    if be32(x) == be32(y) {
        assert(be32(x)[0] == be32(y)[0]);
        assert(be32(x)[1] == be32(y)[1]);
        assert(be32(x)[2] == be32(y)[2]);
        assert(be32(x)[3] == be32(y)[3]);
        assert(((x >> 24u32) as u8 == (y >> 24u32) as u8 && (x >> 16u32) as u8 == (y >> 16u32) as u8
            && (x >> 8u32) as u8 == (y >> 8u32) as u8 && x as u8 == y as u8) ==> x == y)
            by (bit_vector);
    }
}

/// Distinct `u64` values have distinct big-endian encodings.
pub proof fn lemma_be64_injective(x: u64, y: u64)
    ensures
        be64(x) == be64(y) ==> x == y,
{
    if be64(x) == be64(y) {
        assert(be64(x)[0] == be64(y)[0]);
        assert(be64(x)[1] == be64(y)[1]);
        assert(be64(x)[2] == be64(y)[2]);
        assert(be64(x)[3] == be64(y)[3]);
        assert(be64(x)[4] == be64(y)[4]);
        assert(be64(x)[5] == be64(y)[5]);
        assert(be64(x)[6] == be64(y)[6]);
        assert(be64(x)[7] == be64(y)[7]);
        assert(((x >> 56u64) as u8 == (y >> 56u64) as u8 && (x >> 48u64) as u8 == (y >> 48u64) as u8
            && (x >> 40u64) as u8 == (y >> 40u64) as u8 && (x >> 32u64) as u8 == (y >> 32u64) as u8
            && (x >> 24u64) as u8 == (y >> 24u64) as u8 && (x >> 16u64) as u8 == (y >> 16u64) as u8
            && (x >> 8u64) as u8 == (y >> 8u64) as u8 && x as u8 == y as u8) ==> x == y)
            by (bit_vector);
    }
}

/// The big-endian bytes of a `u32`.
pub fn u32_be_bytes(x: u32) -> (r: [u8; 4])
    ensures
        r@ == be32(x),
{
    let r = [(x >> 24u32) as u8, (x >> 16u32) as u8, (x >> 8u32) as u8, x as u8];
    assert(r@ =~= be32(x));
    r
}

/// The big-endian bytes of a `u64`.
pub fn u64_be_bytes(x: u64) -> (r: [u8; 8])
    ensures
        r@ == be64(x),
{
    let r = [
        (x >> 56u64) as u8,
        (x >> 48u64) as u8,
        (x >> 40u64) as u8,
        (x >> 32u64) as u8,
        (x >> 24u64) as u8,
        (x >> 16u64) as u8,
        (x >> 8u64) as u8,
        x as u8,
    ];
    assert(r@ =~= be64(x));
    r
}

/// Appends `data` to the end of `buf`.
pub fn extend_bytes(buf: &mut Vec<u8>, data: &[u8])
    ensures
        final(buf)@ == old(buf)@ + data@,
{
    let n = data.len();
    let mut i: usize = 0;
    while i < n
        invariant
            n == data@.len(),
            i <= n,
            buf@ == old(buf)@ + data@.subrange(0, i as int),
        decreases n - i,
    {
        buf.push(data[i]);
        i = i + 1;
        assert(buf@ =~= old(buf)@ + data@.subrange(0, i as int));
    }
    assert(data@.subrange(0, n as int) =~= data@);
}

/// Whether two byte strings are equal.
pub fn bytes_equal(a: &[u8], b: &[u8]) -> (r: bool)
    ensures
        r == (a@ == b@),
{
    if a.len() != b.len() {
        return false;
    }
    let n = a.len();
    let mut i: usize = 0;
    while i < n
        invariant
            n == a@.len(),
            n == b@.len(),
            i <= n,
            forall|j: int| 0 <= j < i ==> a@[j] == b@[j],
        decreases n - i,
    {
        if a[i] != b[i] {
            return false;
        }
        i = i + 1;
    }
    assert(a@ =~= b@);
    true
}

} // verus!
