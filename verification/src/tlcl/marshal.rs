//! Writers for hand-built TPM 2.0 commands in a 512-byte command buffer.
//!
//! Each writer puts its field big-endian at `*offset`, moves `*offset` past
//! it and takes its width off `*size`, the room that is left.
use vstd::prelude::*;

use crate::tlcl::bytes::{be16_bytes, be32_bytes, overwrite, write_be16, write_be32};
use crate::tlcl::structs::{Tpm2SessionHeader, Tpm2TpmHeader};

verus! {

/// Writes a 32-bit value.
pub fn marshal_u32(val: u32, offset: &mut usize, buf: &mut [u8; 512], size: &mut usize)
    requires
        *old(offset) + 4 <= 512,
        *old(size) >= 4,
    ensures
        final(buf)@ == overwrite(old(buf)@, *old(offset) as int, be32_bytes(val)),
        *final(offset) == *old(offset) + 4,
        *final(size) == *old(size) - 4,
{
    write_be32(buf, *offset, val);
    *offset = *offset + 4;
    *size = *size - 4;
}

/// Writes a 16-bit value.
pub fn marshal_u16(val: u16, offset: &mut usize, buf: &mut [u8; 512], size: &mut usize)
    requires
        *old(offset) + 2 <= 512,
        *old(size) >= 2,
    ensures
        final(buf)@ == overwrite(old(buf)@, *old(offset) as int, be16_bytes(val)),
        *final(offset) == *old(offset) + 2,
        *final(size) == *old(size) - 2,
{
    write_be16(buf, *offset, val);
    *offset = *offset + 2;
    *size = *size - 2;
}

/// Writes one byte.
pub fn marshal_u8(val: u8, offset: &mut usize, buf: &mut [u8; 512], size: &mut usize)
    requires
        *old(offset) + 1 <= 512,
        *old(size) >= 1,
    ensures
        final(buf)@ == overwrite(old(buf)@, *old(offset) as int, seq![val]),
        *final(offset) == *old(offset) + 1,
        *final(size) == *old(size) - 1,
{
    buf[*offset] = val;
    assert(buf@ =~= overwrite(old(buf)@, *old(offset) as int, seq![val]));
    *offset = *offset + 1;
    *size = *size - 1;
}

/// The thirteen bytes of a session: the size of what follows (nine), the
/// handle, the nonce size, the attributes and the authorisation size.
pub open spec fn session_bytes(hdr: Tpm2SessionHeader) -> Seq<u8> {
    be32_bytes(9) + be32_bytes(hdr.session_handle) + be16_bytes(hdr.nonce_size) + seq![
        hdr.session_attrs,
    ] + be16_bytes(hdr.auth_size)
}

/// Writes a session: a size field, then the handle, nonce size,
/// attributes and authorisation size, the size field counting those nine
/// bytes.
pub fn marshal_session_header(
    hdr: Tpm2SessionHeader,
    buf: &mut [u8; 512],
    size: &mut usize,
    offset: &mut usize,
)
    requires
        *old(offset) + 13 <= 512,
        *old(size) >= 13,
    ensures
        final(buf)@ == overwrite(old(buf)@, *old(offset) as int, session_bytes(hdr)),
        *final(offset) == *old(offset) + 13,
        *final(size) == *old(size) - 13,
{
    let ghost b0 = buf@;
    let ghost o = *offset as int;
    let mut len_field_offset = *offset;
    *offset = *offset + 4;
    let body_start = *offset;
    marshal_u32(hdr.session_handle, offset, buf, size);
    marshal_u16(hdr.nonce_size, offset, buf, size);
    marshal_u8(hdr.session_attrs, offset, buf, size);
    marshal_u16(hdr.auth_size, offset, buf, size);
    let body_end = *offset;
    marshal_u32((body_end - body_start) as u32, &mut len_field_offset, buf, size);
    assert(buf@ =~= overwrite(b0, o, session_bytes(hdr)));
}

/// The ten bytes of a header: tag, size and code.
pub open spec fn tpm_header_bytes(hdr: Tpm2TpmHeader) -> Seq<u8> {
    be16_bytes(hdr.tpm_tag) + be32_bytes(hdr.tpm_size) + be32_bytes(hdr.tpm_code)
}

/// Writes a command header.
pub fn marshal_tpm_header(
    hdr: Tpm2TpmHeader,
    buf: &mut [u8; 512],
    size: &mut usize,
    offset: &mut usize,
)
    requires
        *old(offset) + 10 <= 512,
        *old(size) >= 10,
    ensures
        final(buf)@ == overwrite(old(buf)@, *old(offset) as int, tpm_header_bytes(hdr)),
        *final(offset) == *old(offset) + 10,
        *final(size) == *old(size) - 10,
{
    let ghost b0 = buf@;
    let ghost o = *offset as int;
    marshal_u16(hdr.tpm_tag, offset, buf, size);
    marshal_u32(hdr.tpm_size, offset, buf, size);
    marshal_u32(hdr.tpm_code, offset, buf, size);
    assert(buf@ =~= overwrite(b0, o, tpm_header_bytes(hdr)));
}

} // verus!
