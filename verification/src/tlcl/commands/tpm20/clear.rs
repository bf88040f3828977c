use vstd::prelude::*;

use crate::tlcl::transport_ready;
use crate::tlcl::tpm20::constants::{TPM2_Clear, Tpm2CommandBody};
use crate::tlcl::tpm20::{tpm2_transaction, tpm_get_response_code};

verus! {

/// Clears the TPM, authorised by the platform hierarchy.
pub fn TlclForceClear<X: Fn(&[u8], usize) -> (u32, Vec<u8>)>(xmit: &X) -> (rc: u32)
    requires
        transport_ready(*xmit),
    ensures
        tpm2_transaction(*xmit, TPM2_Clear, rc),
{
    tpm_get_response_code(xmit, TPM2_Clear, &Tpm2CommandBody::NoBody)
}

} // verus!
