use vstd::prelude::*;

use crate::tlcl::constants::TPM_E_WRITE_FAILURE;
use crate::tlcl::transport_ready;
use crate::tlcl::tpm20::constants::{
    TPM2_Shutdown, TPM2_Startup, TPM_SU_CLEAR, TPM_SU_STATE, Tpm2CommandBody, tpm2_shutdown_cmd,
    tpm2_startup_cmd,
};
use crate::tlcl::tpm20::{tpm2_transaction, tpm_get_response_code};

verus! {

/// Starts the TPM from a clear state.  TPM2_Startup is not among the
/// commands this layer builds, so the result is a write failure.
pub fn TlclStartup<X: Fn(&[u8], usize) -> (u32, Vec<u8>)>(xmit: &X) -> (rc: u32)
    requires
        transport_ready(*xmit),
    ensures
        tpm2_transaction(*xmit, TPM2_Startup, rc),
        rc == TPM_E_WRITE_FAILURE,
{
    let startup = Tpm2CommandBody::Startup(tpm2_startup_cmd { startup_type: TPM_SU_CLEAR });
    tpm_get_response_code(xmit, TPM2_Startup, &startup)
}

/// Saves the TPM state for a later resume.  TPM2_Shutdown is not among the
/// commands this layer builds, so the result is a write failure.
pub fn TlclSaveState<X: Fn(&[u8], usize) -> (u32, Vec<u8>)>(xmit: &X) -> (rc: u32)
    requires
        transport_ready(*xmit),
    ensures
        tpm2_transaction(*xmit, TPM2_Shutdown, rc),
        rc == TPM_E_WRITE_FAILURE,
{
    let shutdown = Tpm2CommandBody::Shutdown(tpm2_shutdown_cmd { shutdown_type: TPM_SU_STATE });
    tpm_get_response_code(xmit, TPM2_Shutdown, &shutdown)
}

/// Starts the TPM from a saved state.  TPM2_Startup is not among the
/// commands this layer builds, so the result is a write failure.
pub fn TlclResume<X: Fn(&[u8], usize) -> (u32, Vec<u8>)>(xmit: &X) -> (rc: u32)
    requires
        transport_ready(*xmit),
    ensures
        tpm2_transaction(*xmit, TPM2_Startup, rc),
        rc == TPM_E_WRITE_FAILURE,
{
    let startup = Tpm2CommandBody::Startup(tpm2_startup_cmd { startup_type: TPM_SU_STATE });
    tpm_get_response_code(xmit, TPM2_Startup, &startup)
}

} // verus!
