use vstd::prelude::*;

use crate::tlcl::constants::TPM_E_WRITE_FAILURE;
use crate::tlcl::transport_ready;
use crate::tlcl::tpm20::constants::{HR_NV_INDEX, TPM2B, TPM2_NV_Write, Tpm2CommandBody, tpm2_nv_write_cmd};
use crate::tlcl::tpm20::{tpm2_transaction, tpm_get_response_code};

verus! {

/// Writes the first `length` bytes of `data` at the start of NV space
/// `index` (see `TlclWriteWithOffset`).
pub fn TlclWrite<X: Fn(&[u8], usize) -> (u32, Vec<u8>)>(
    xmit: &X,
    index: u32,
    data: &[u8],
    length: u32,
) -> (rc: u32)
    requires
        transport_ready(*xmit),
        HR_NV_INDEX + index <= u32::MAX,
    ensures
        tpm2_transaction(*xmit, TPM2_NV_Write, rc),
        rc == TPM_E_WRITE_FAILURE,
{
    TlclWriteWithOffset(xmit, index, data, length, 0)
}

/// Writes the first `length` bytes of `data` into NV space `index` at
/// `offset`, which must fit in 16 bits.  TPM2_NV_Write is not among the
/// commands this layer builds, so the result is a write failure.
pub fn TlclWriteWithOffset<X: Fn(&[u8], usize) -> (u32, Vec<u8>)>(
    xmit: &X,
    index: u32,
    data: &[u8],
    length: u32,
    offset: u32,
) -> (rc: u32)
    requires
        transport_ready(*xmit),
        HR_NV_INDEX + index <= u32::MAX,
        offset <= u16::MAX,
    ensures
        tpm2_transaction(*xmit, TPM2_NV_Write, rc),
        rc == TPM_E_WRITE_FAILURE,
{
    let nv_write_data = TPM2B { size: length as u16, buffer: vstd::slice::slice_to_vec(data) };
    let nv_writec = Tpm2CommandBody::NvWrite(
        tpm2_nv_write_cmd { nvIndex: HR_NV_INDEX + index, data: nv_write_data, offset: offset as u16 },
    );
    tpm_get_response_code(xmit, TPM2_NV_Write, &nv_writec)
}

} // verus!
