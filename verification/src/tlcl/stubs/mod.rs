//! The command round trip of a build without a TPM: every command is
//! refused as unknown.
pub mod constants;
pub mod marshal;

use vstd::prelude::*;

use crate::tlcl::constants::TPM_E_NO_SUCH_COMMAND;

verus! {

/// Refuses `_command`: there is no TPM.
pub fn tpm_get_response<R>(_command: u32, _command_body: &[u8], _response: &mut R) -> (rc: u32)
    ensures
        rc == TPM_E_NO_SUCH_COMMAND,
        *final(_response) == *old(_response),
{
    TPM_E_NO_SUCH_COMMAND
}

/// Refuses `_command`: there is no TPM.
pub fn tpm_send_receive<R>(_command: u32, _command_body: &[u8], _response: &mut R) -> (rc: u32)
    ensures
        rc == TPM_E_NO_SUCH_COMMAND,
        *final(_response) == *old(_response),
{
    TPM_E_NO_SUCH_COMMAND
}

/// Refuses `_command`: there is no TPM.
pub fn tpm_get_response_code(_command: u32, _command_body: &[u8]) -> (rc: u32)
    ensures
        rc == TPM_E_NO_SUCH_COMMAND,
{
    TPM_E_NO_SUCH_COMMAND
}

/// Says that no TPM version was chosen.
pub fn TlclGetTPMVersion() -> (v: String)
    ensures
        v@ == "No TPM version was specified when compiling libcros."@,
{
    String::from_str("No TPM version was specified when compiling libcros.")
}

} // verus!
