use vstd::prelude::*;

use crate::tlcl::transport_ready;
use crate::tlcl::tpm12::constants::{TPM_ORD_ForceClear, Tpm1CommandBody};
use crate::tlcl::tpm12::{tpm1_transaction, tpm_get_response_code};

verus! {

/// Clears the TPM's owner and NV spaces (ForceClear).
pub fn TlclForceClear<X: Fn(&[u8], usize) -> (u32, Vec<u8>)>(xmit: &X) -> (rc: u32)
    requires
        transport_ready(*xmit),
    ensures
        tpm1_transaction(*xmit, TPM_ORD_ForceClear, Tpm1CommandBody::NoBody, rc),
{
    tpm_get_response_code(xmit, TPM_ORD_ForceClear, &Tpm1CommandBody::NoBody)
}

} // verus!
