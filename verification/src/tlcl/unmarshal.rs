//! Reading the header of a response held in a 4096-byte receive buffer.
//!
//! Response headers have the same layout on TPM 1.2 and TPM 2.0: bytes 0-1
//! are the tag, bytes 2-5 the size and bytes 6-9 the response code.
use vstd::prelude::*;

use crate::tlcl::bytes::{be16_at, be32_at, read_be16, read_be32};

verus! {

/// Reads the big-endian 32-bit value at `*offset` and moves past it.
pub fn unmarshal_u32(buf: &[u8; 4096], offset: &mut usize) -> (v: u32)
    requires
        *old(offset) + 4 <= 4096,
    ensures
        v == be32_at(buf@, *old(offset) as int),
        *final(offset) == *old(offset) + 4,
{
    let v = read_be32(buf, *offset);
    *offset = *offset + 4;
    v
}

/// Reads the big-endian 16-bit value at `*offset` and moves past it.
pub fn unmarshal_u16(buf: &[u8; 4096], offset: &mut usize) -> (v: u16)
    requires
        *old(offset) + 2 <= 4096,
    ensures
        v == be16_at(buf@, *old(offset) as int),
        *final(offset) == *old(offset) + 2,
{
    let v = read_be16(buf, *offset);
    *offset = *offset + 2;
    v
}

/// Reads the byte at `*offset` and moves past it.
pub fn unmarshal_u8(buf: &[u8; 4096], offset: &mut usize) -> (v: u8)
    requires
        *old(offset) + 1 <= 4096,
    ensures
        v == buf@[*old(offset) as int],
        *final(offset) == *old(offset) + 1,
{
    let v = buf[*offset];
    *offset = *offset + 1;
    v
}

/// The response code, always at bytes 6-9.
pub fn unmarshal_response_code(buf: &[u8; 4096]) -> (code: u32)
    ensures
        code == be32_at(buf@, 6),
{
    let mut offset: usize = 0;
    let _tag = unmarshal_u16(buf, &mut offset);
    let _size = unmarshal_u32(buf, &mut offset);
    unmarshal_u32(buf, &mut offset)
}

} // verus!
