use vstd::prelude::*;

use crate::tlcl::transport_ready;
use crate::tlcl::tpm12::constants::{
    TPM_ORD_SaveState, TPM_ORD_Startup, TPM_ST_CLEAR, TPM_ST_STATE, Tpm1CommandBody,
    tpm1_startup_cmd,
};
use crate::tlcl::tpm12::{tpm1_transaction, tpm_get_response_code};

verus! {

/// Starts the TPM from a cleared state.
pub fn TlclStartup<X: Fn(&[u8], usize) -> (u32, Vec<u8>)>(xmit: &X) -> (rc: u32)
    requires
        transport_ready(*xmit),
    ensures
        tpm1_transaction(
            *xmit,
            TPM_ORD_Startup,
            Tpm1CommandBody::Startup(tpm1_startup_cmd { startup_type: TPM_ST_CLEAR }),
            rc,
        ),
{
    let startup = Tpm1CommandBody::Startup(tpm1_startup_cmd { startup_type: TPM_ST_CLEAR });
    tpm_get_response_code(xmit, TPM_ORD_Startup, &startup)
}

/// Saves the TPM state before a suspend.
pub fn TlclSaveState<X: Fn(&[u8], usize) -> (u32, Vec<u8>)>(xmit: &X) -> (rc: u32)
    requires
        transport_ready(*xmit),
    ensures
        tpm1_transaction(*xmit, TPM_ORD_SaveState, Tpm1CommandBody::NoBody, rc),
{
    tpm_get_response_code(xmit, TPM_ORD_SaveState, &Tpm1CommandBody::NoBody)
}

/// Starts the TPM from the saved state after a resume.
pub fn TlclResume<X: Fn(&[u8], usize) -> (u32, Vec<u8>)>(xmit: &X) -> (rc: u32)
    requires
        transport_ready(*xmit),
    ensures
        tpm1_transaction(
            *xmit,
            TPM_ORD_Startup,
            Tpm1CommandBody::Startup(tpm1_startup_cmd { startup_type: TPM_ST_STATE }),
            rc,
        ),
{
    let startup = Tpm1CommandBody::Startup(tpm1_startup_cmd { startup_type: TPM_ST_STATE });
    tpm_get_response_code(xmit, TPM_ORD_Startup, &startup)
}

} // verus!
