//! Big-endian byte encoding, the wire order of every TPM field.
use vstd::prelude::*;

verus! {

/// The two bytes of `v`, most significant first.
pub open spec fn be16_bytes(v: u16) -> Seq<u8> {
    seq![(v / 256) as u8, (v % 256) as u8]
}

/// The four bytes of `v`, most significant first.
pub open spec fn be32_bytes(v: u32) -> Seq<u8> {
    seq![
        (v / 0x1000000) as u8,
        ((v / 0x10000) % 256) as u8,
        ((v / 0x100) % 256) as u8,
        (v % 256) as u8,
    ]
}

/// The number that the two bytes of `s` starting at `i` encode.
pub open spec fn be16_at(s: Seq<u8>, i: int) -> u16 {
    (s[i] * 256 + s[i + 1]) as u16
}

/// The number that the four bytes of `s` starting at `i` encode.
pub open spec fn be32_at(s: Seq<u8>, i: int) -> u32 {
    (s[i] * 0x1000000 + s[i + 1] * 0x10000 + s[i + 2] * 0x100 + s[i + 3]) as u32
}

/// `s` with the bytes `b` written over it starting at `at`.
pub open spec fn overwrite(s: Seq<u8>, at: int, b: Seq<u8>) -> Seq<u8> {
    s.take(at) + b + s.skip(at + b.len())
}

/// Decoding an encoded 16-bit value gives the value back.
pub proof fn lemma_be16_roundtrip(v: u16)
    ensures
        be16_at(be16_bytes(v), 0) == v,
{
}

/// Decoding an encoded 32-bit value gives the value back.
pub proof fn lemma_be32_roundtrip(v: u32)
    ensures
        be32_at(be32_bytes(v), 0) == v,
{
}

/// Encoding the value that two bytes decode to gives the same two bytes.
pub proof fn lemma_be16_bytes_of_value(s: Seq<u8>, i: int)
    requires
        0 <= i && i + 2 <= s.len(),
    ensures
        be16_bytes(be16_at(s, i)) == s.subrange(i, i + 2),
{
    assert(be16_bytes(be16_at(s, i)) =~= s.subrange(i, i + 2));
}

/// Encoding the value that four bytes decode to gives the same four bytes.
pub proof fn lemma_be32_bytes_of_value(s: Seq<u8>, i: int)
    requires
        0 <= i && i + 4 <= s.len(),
    ensures
        be32_bytes(be32_at(s, i)) == s.subrange(i, i + 4),
{
    let (a, b, c, d) = (s[i] as int, s[i + 1] as int, s[i + 2] as int, s[i + 3] as int);
    let x = a * 0x1000000 + b * 0x10000 + c * 0x100 + d;
    assert(x / 0x1000000 == a && (x / 0x10000) % 256 == b && (x / 0x100) % 256 == c && x % 256
        == d) by (nonlinear_arith)
        requires
            0 <= a < 256,
            0 <= b < 256,
            0 <= c < 256,
            0 <= d < 256,
            x == a * 0x1000000 + b * 0x10000 + c * 0x100 + d,
    ;
    assert(be32_bytes(be32_at(s, i)) =~= s.subrange(i, i + 4));
}

/// Writing `x` and then `y` right after it is writing `x + y`.
pub proof fn lemma_overwrite_append(s: Seq<u8>, at: int, x: Seq<u8>, y: Seq<u8>)
    requires
        0 <= at,
        at + x.len() + y.len() <= s.len(),
    ensures
        overwrite(overwrite(s, at, x), at + x.len(), y) == overwrite(s, at, x + y),
{
    assert(overwrite(overwrite(s, at, x), at + x.len(), y) =~= overwrite(s, at, x + y));
}

/// Reads the big-endian 16-bit value at `src[at..at + 2]`.
pub fn read_be16(src: &[u8], at: usize) -> (v: u16)
    requires
        at + 2 <= src@.len(),
    ensures
        v == be16_at(src@, at as int),
{
    (src[at] as u16) * 256 + (src[at + 1] as u16)
}

/// Reads the big-endian 32-bit value at `src[at..at + 4]`.
pub fn read_be32(src: &[u8], at: usize) -> (v: u32)
    requires
        at + 4 <= src@.len(),
    ensures
        v == be32_at(src@, at as int),
{
    (src[at] as u32) * 0x1000000 + (src[at + 1] as u32) * 0x10000 + (src[at + 2] as u32) * 0x100
        + (src[at + 3] as u32)
}

/// Writes `val` big-endian into `dest[at..at + 2]`.
pub fn write_be16(dest: &mut [u8], at: usize, val: u16)
    requires
        at + 2 <= old(dest)@.len(),
    ensures
        final(dest)@ == overwrite(old(dest)@, at as int, be16_bytes(val)),
{
    dest[at] = (val / 256) as u8;
    dest[at + 1] = (val % 256) as u8;
    assert(dest@ =~= overwrite(old(dest)@, at as int, be16_bytes(val)));
}

/// Writes `val` big-endian into `dest[at..at + 4]`.
pub fn write_be32(dest: &mut [u8], at: usize, val: u32)
    requires
        at + 4 <= old(dest)@.len(),
    ensures
        final(dest)@ == overwrite(old(dest)@, at as int, be32_bytes(val)),
{
    dest[at] = (val / 0x1000000) as u8;
    dest[at + 1] = ((val / 0x10000) % 256) as u8;
    dest[at + 2] = ((val / 0x100) % 256) as u8;
    dest[at + 3] = (val % 256) as u8;
    assert(dest@ =~= overwrite(old(dest)@, at as int, be32_bytes(val)));
}

} // verus!
