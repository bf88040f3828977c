//! Parsing of TPM 1.2 responses.
//!
//! The field readers share one convention: `buffer_space` is what is left
//! of the response after `*at`; a read past it sets the room to -1, reads
//! nothing and yields 0, and -1 stays -1 through every later read.
use vstd::prelude::*;

pub use crate::tlcl::bytes::{read_be16, read_be32};
use crate::tlcl::bytes::{be16_at, be32_at};
use crate::tlcl::tpm12::constants::{
    TPM_ORD_NV_ReadValue, TPM_SUCCESS, TPM_TAG_RSP_COMMAND, nv_read_response, tpm1_response,
};
use crate::tlcl::tpm12::marshal::cursor_ok;

verus! {

/// Reads a big-endian 16-bit value at the cursor.
pub fn unmarshal_u16(buffer: &[u8], at: &mut usize, buffer_space: &mut i32) -> (v: u16)
    requires
        cursor_ok(buffer.len() as int, *old(at), *old(buffer_space)),
    ensures
        *old(buffer_space) < 2 ==> v == 0 && *final(buffer_space) == -1 && *final(at) == *old(at),
        *old(buffer_space) >= 2 ==> v == be16_at(buffer@, *old(at) as int) && *final(buffer_space)
            == *old(buffer_space) - 2 && *final(at) == *old(at) + 2,
{
    if *buffer_space < 2 {
        *buffer_space = -1;
        return 0;
    }
    let value = read_be16(buffer, *at);
    *at = *at + 2;
    *buffer_space = *buffer_space - 2;
    value
}

/// Reads a big-endian 32-bit value at the cursor.
pub fn unmarshal_u32(buffer: &[u8], at: &mut usize, buffer_space: &mut i32) -> (v: u32)
    requires
        cursor_ok(buffer.len() as int, *old(at), *old(buffer_space)),
    ensures
        *old(buffer_space) < 4 ==> v == 0 && *final(buffer_space) == -1 && *final(at) == *old(at),
        *old(buffer_space) >= 4 ==> v == be32_at(buffer@, *old(at) as int) && *final(buffer_space)
            == *old(buffer_space) - 4 && *final(at) == *old(at) + 4,
{
    if *buffer_space < 4 {
        *buffer_space = -1;
        return 0;
    }
    let value = read_be32(buffer, *at);
    *at = *at + 4;
    *buffer_space = *buffer_space - 4;
    value
}

/// The read data announced at `at` fits in what is left and in the
/// response buffer.
pub open spec fn nv_read_fits(s: Seq<u8>, at: int, space: int) -> bool {
    space >= 4 && be32_at(s, at) <= space - 4 && be32_at(s, at) <= 2048
}

/// Reads an NV_ReadValue result: a 32-bit length and that many data bytes.
/// When the length does not fit, the room becomes -1 and the length 0.
pub fn unmarshal_nv_read(
    buffer: &[u8],
    at: &mut usize,
    size: &mut i32,
    nvr: &mut nv_read_response,
)
    requires
        cursor_ok(buffer.len() as int, *old(at), *old(size)),
    ensures
        cursor_ok(buffer.len() as int, *final(at), *final(size)),
        !nv_read_fits(buffer@, *old(at) as int, *old(size) as int) ==> *final(size) == -1
            && final(nvr).data_size == 0,
        nv_read_fits(buffer@, *old(at) as int, *old(size) as int) ==> {
            let n = be32_at(buffer@, *old(at) as int) as int;
            &&& final(nvr).data_size == n
            &&& *final(size) == *old(size) - 4 - n
            &&& *final(at) == *old(at) + 4 + n
            &&& final(nvr).data@ == buffer@.subrange(*old(at) + 4, *old(at) + 4 + n) + old(
                nvr,
            ).data@.skip(n)
        },
{
    nvr.data_size = unmarshal_u32(buffer, at, size);
    if nvr.data_size as i32 > *size {
        *size = -1;
        nvr.data_size = 0;
        return ;
    }
    if nvr.data_size as usize > 2048 {
        *size = -1;
        nvr.data_size = 0;
        return ;
    }
    let n = nvr.data_size as usize;
    let start = *at;
    assert(buffer.len() == buffer@.len());
    proof {
        assert(*size >= 0);
        assert(n <= *size);
    }
    let mut i: usize = 0;
    while i < n
        invariant
            i <= n,
            n <= 2048,
            start + n <= buffer@.len(),
            buffer@.len() <= usize::MAX,
            nvr.data_size == n,
            forall|j: int|
                0 <= j < 2048 ==> #[trigger] nvr.data@[j] == (if j < i {
                    buffer@[start + j]
                } else {
                    old(nvr).data@[j]
                }),
        decreases n - i,
    {
        nvr.data[i] = buffer[start + i];
        i = i + 1;
    }
    *at = start + n;
    *size = *size - n as i32;
    assert(nvr.data@ =~= buffer@.subrange(start as int, start + n) + old(nvr).data@.skip(n as int));
}

/// A response of `n` bytes `s` to `command` is well formed: a full header
/// with the response tag and a size of at least ten, and, when an
/// NV_ReadValue succeeded with data, a length that matches what follows.
pub open spec fn tpm1_response_ok(command: u32, s: Seq<u8>, n: int) -> bool {
    &&& n >= 10
    &&& be16_at(s, 0) == TPM_TAG_RSP_COMMAND
    &&& be32_at(s, 2) >= 10
    &&& (be32_at(s, 6) != TPM_SUCCESS || n == 10 || command != TPM_ORD_NV_ReadValue || (n >= 14
        && be32_at(s, 10) <= 2048 && n - 14 == be32_at(s, 10)))
}

/// `new` holds the parsed response of `n` bytes `s` to `command`: the
/// header fields, and, for NV_ReadValue data, its length and bytes; the
/// read data of `old` is kept otherwise.
pub open spec fn tpm1_parsed(
    command: u32,
    s: Seq<u8>,
    n: int,
    old: tpm1_response,
    new: tpm1_response,
) -> bool {
    &&& new.hdr.tpm_tag == be16_at(s, 0)
    &&& new.hdr.tpm_size == be32_at(s, 2)
    &&& new.hdr.tpm_code == be32_at(s, 6)
    &&& if command == TPM_ORD_NV_ReadValue && new.hdr.tpm_code == TPM_SUCCESS && n > 10 {
        let len = be32_at(s, 10) as int;
        &&& new.nvr.data_size == len
        &&& new.nvr.data@.take(len) == s.subrange(14, 14 + len)
    } else {
        new.nvr == old.nvr
    }
}

/// Parses the first `cr_size` bytes of `response_body` as the response to
/// `command` into `response`; returns 0 when it is well formed (see
/// `tpm1_response_ok`), else -1.
pub fn tpm_unmarshal_response(
    command: u32,
    response_body: &[u8],
    cr_size: i32,
    response: &mut tpm1_response,
) -> (r: i32)
    requires
        cr_size <= response_body@.len(),
    ensures
        r == 0 || r == -1,
        (r == 0) == tpm1_response_ok(command, response_body@, cr_size as int),
        cr_size < 10 ==> *final(response) == *old(response),
        cr_size >= 10 ==> {
            &&& final(response).hdr.tpm_tag == be16_at(response_body@, 0)
            &&& final(response).hdr.tpm_size == be32_at(response_body@, 2)
            &&& final(response).hdr.tpm_code == be32_at(response_body@, 6)
        },
        r == 0 ==> tpm1_parsed(
            command,
            response_body@,
            cr_size as int,
            *old(response),
            *final(response),
        ),
{
    let mut cr_size = cr_size;
    let mut at: usize = 0;
    if cr_size < 10 {
        return -1;
    }
    assert(response_body.len() == response_body@.len());
    response.hdr.tpm_tag = unmarshal_u16(response_body, &mut at, &mut cr_size);
    response.hdr.tpm_size = unmarshal_u32(response_body, &mut at, &mut cr_size);
    response.hdr.tpm_code = unmarshal_u32(response_body, &mut at, &mut cr_size);
    if response.hdr.tpm_tag != TPM_TAG_RSP_COMMAND {
        return -1;
    }
    if response.hdr.tpm_size < 10 {
        return -1;
    }
    if response.hdr.tpm_code != TPM_SUCCESS {
        return 0;
    }
    if cr_size > 0 {
        if command == TPM_ORD_NV_ReadValue {
            unmarshal_nv_read(response_body, &mut at, &mut cr_size, &mut response.nvr);
            proof {
                if response.nvr.data_size as int == be32_at(response_body@, 10) && cr_size == 0 {
                    assert(response.nvr.data@.take(be32_at(response_body@, 10) as int)
                        =~= response_body@.subrange(14, 14 + be32_at(response_body@, 10)));
                }
            }
        } else {
            cr_size = 0;
        }
    }
    if cr_size != 0 {
        return -1;
    }
    0
}

} // verus!
