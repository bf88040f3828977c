use vstd::prelude::*;

use crate::tlcl::constants::{
    TPM_E_BADINDEX, TPM_E_READ_EMPTY, TPM_E_RESPONSE_TOO_LARGE, TPM_E_WRITE_FAILURE, TPM_SUCCESS,
};
use crate::tlcl::transport_ready;
use crate::tlcl::tpm20::constants::{
    HR_NV_INDEX, TPM2B, TPM2_NV_Read, TPM2_NV_ReadPublic, Tpm2CommandBody, nv_read_public_response,
    nv_read_response, tpm2_nv_read_cmd, tpm2_nv_read_public_cmd, tpm2_response, tpm2_response_body,
};
use crate::tlcl::tpm20::{tpm2_transaction, tpm_send_receive};

verus! {

/// Reads `length` bytes from the start of NV space `index` into `outbuf`
/// (see `TlclReadWithOffset`).
pub fn TlclRead<X: Fn(&[u8], usize) -> (u32, Vec<u8>)>(
    xmit: &X,
    index: u32,
    outbuf: &mut [u8],
    length: u32,
) -> (rc: u32)
    requires
        transport_ready(*xmit),
        HR_NV_INDEX + index <= u32::MAX,
        length <= old(outbuf)@.len(),
    ensures
        tpm2_transaction(*xmit, TPM2_NV_Read, rc),
        rc == TPM_E_WRITE_FAILURE,
        final(outbuf)@ == old(outbuf)@,
{
    TlclReadWithOffset(xmit, index, length, 0, outbuf)
}

/// Reads `length` bytes of NV space `index` at `offset` into `outbuf`: a
/// missing index (0x14a, 0x28b) is reported as a bad index, data shorter
/// than asked as too large a request, longer as an empty read.
/// TPM2_NV_Read is not among the commands this layer builds, so the result
/// is a write failure and `outbuf` is left as it was.
pub fn TlclReadWithOffset<X: Fn(&[u8], usize) -> (u32, Vec<u8>)>(
    xmit: &X,
    index: u32,
    length: u32,
    offset: u32,
    outbuf: &mut [u8],
) -> (rc: u32)
    requires
        transport_ready(*xmit),
        HR_NV_INDEX + index <= u32::MAX,
        length <= old(outbuf)@.len(),
    ensures
        tpm2_transaction(*xmit, TPM2_NV_Read, rc),
        rc == TPM_E_WRITE_FAILURE,
        final(outbuf)@ == old(outbuf)@,
{
    let nv_readc = Tpm2CommandBody::NvRead(
        tpm2_nv_read_cmd { nvIndex: HR_NV_INDEX + index, size: length as u16, offset: offset as u16 },
    );
    let mut response = tpm2_response::zeroed();
    let rv = tpm_send_receive(xmit, TPM2_NV_Read, &nv_readc, &mut response);
    if rv != TPM_SUCCESS {
        if rv == 0x14a || rv == 0x28b {
            return TPM_E_BADINDEX;
        }
        return rv;
    }
    let nvr = match response.body {
        tpm2_response_body::Nvr(n) => n,
        _ => nv_read_response { params_size: 0, buffer: TPM2B::empty() },
    };
    if length > nvr.buffer.size as u32 {
        return TPM_E_RESPONSE_TOO_LARGE;
    }
    if length < nvr.buffer.size as u32 {
        return TPM_E_READ_EMPTY;
    }
    let n = length as usize;
    if n > nvr.buffer.buffer.len() {
        return TPM_E_RESPONSE_TOO_LARGE;
    }
    let mut i: usize = 0;
    while i < n
        invariant
            i <= n,
            n <= outbuf@.len(),
            n <= nvr.buffer.buffer@.len(),
        decreases n - i,
    {
        outbuf[i] = nvr.buffer.buffer[i];
        i = i + 1;
    }
    TPM_SUCCESS
}

/// Reads the public area of NV space `index` into `presp`, which is
/// written only on success.  TPM2_NV_ReadPublic is not among the commands
/// this layer builds, so the result is a write failure.
pub fn TlclNVReadPublic<X: Fn(&[u8], usize) -> (u32, Vec<u8>)>(
    xmit: &X,
    index: u32,
    presp: &mut nv_read_public_response,
) -> (rc: u32)
    requires
        transport_ready(*xmit),
        HR_NV_INDEX + index <= u32::MAX,
    ensures
        tpm2_transaction(*xmit, TPM2_NV_ReadPublic, rc),
        rc == TPM_E_WRITE_FAILURE,
        *final(presp) == *old(presp),
{
    let mut response = tpm2_response::zeroed();
    let read_pub = Tpm2CommandBody::NvReadPublic(tpm2_nv_read_public_cmd { nvIndex: HR_NV_INDEX + index });
    let rv = tpm_send_receive(xmit, TPM2_NV_ReadPublic, &read_pub, &mut response);
    if rv == TPM_SUCCESS {
        *presp = match response.body {
            tpm2_response_body::NvReadPublic(r) => r,
            _ => nv_read_public_response::zeroed(),
        };
    }
    rv
}

} // verus!
