use vstd::prelude::*;

use crate::tlcl::transport_ready;
use crate::tlcl::tpm12::constants::{TPM_ORD_NV_WriteValue, Tpm1CommandBody, tpm1_nv_write_cmd};
use crate::tlcl::tpm12::{tpm1_transaction, tpm_get_response_code};

verus! {

/// Writes the first `length` bytes of `data` at the start of NV space `index`.
pub fn TlclWrite<X: Fn(&[u8], usize) -> (u32, Vec<u8>)>(
    xmit: &X,
    index: u32,
    data: &[u8],
    length: u32,
) -> (rc: u32)
    requires
        transport_ready(*xmit),
        length <= data@.len(),
        length <= i32::MAX,
    ensures
        exists|c: tpm1_nv_write_cmd|
            {
                &&& c.nvIndex == index && c.offset == 0 && c.size == length && c.data@ == data@
                &&& #[trigger] tpm1_transaction(*xmit, TPM_ORD_NV_WriteValue, Tpm1CommandBody::NvWrite(c), rc)
            },
{
    TlclWriteWithOffset(xmit, index, data, length, 0)
}

/// Writes the first `length` bytes of `data` into NV space `index` at `offset`.
pub fn TlclWriteWithOffset<X: Fn(&[u8], usize) -> (u32, Vec<u8>)>(
    xmit: &X,
    index: u32,
    data: &[u8],
    length: u32,
    offset: u32,
) -> (rc: u32)
    requires
        transport_ready(*xmit),
        length <= data@.len(),
        length <= i32::MAX,
    ensures
        exists|c: tpm1_nv_write_cmd|
            {
                &&& c.nvIndex == index && c.offset == offset && c.size == length && c.data@ == data@
                &&& #[trigger] tpm1_transaction(*xmit, TPM_ORD_NV_WriteValue, Tpm1CommandBody::NvWrite(c), rc)
            },
{
    let nv_writec = Tpm1CommandBody::NvWrite(
        tpm1_nv_write_cmd { nvIndex: index, offset, size: length, data: vstd::slice::slice_to_vec(data) },
    );
    tpm_get_response_code(xmit, TPM_ORD_NV_WriteValue, &nv_writec)
}

} // verus!
