use vstd::prelude::*;

use crate::tlcl::transport_ready;
use crate::tlcl::tpm12::constants::{
    TPM_ORD_PhysicalEnable, TPM_PHYSICAL_PRESENCE_CMD_ENABLE, TPM_PHYSICAL_PRESENCE_PRESENT,
    TSC_ORD_PhysicalPresence, Tpm1CommandBody, tpm1_physical_presence_cmd,
};
use crate::tlcl::tpm12::{tpm1_transaction, tpm_get_response_code};

verus! {

/// Lets software assert physical presence from now on.
pub fn TlclPhysicalPresenceCMDEnable<X: Fn(&[u8], usize) -> (u32, Vec<u8>)>(xmit: &X) -> (rc: u32)
    requires
        transport_ready(*xmit),
    ensures
        tpm1_transaction(
            *xmit,
            TSC_ORD_PhysicalPresence,
            Tpm1CommandBody::PhysicalPresence(
                tpm1_physical_presence_cmd { physical_presence: TPM_PHYSICAL_PRESENCE_CMD_ENABLE },
            ),
            rc,
        ),
{
    let command_body = Tpm1CommandBody::PhysicalPresence(
        tpm1_physical_presence_cmd { physical_presence: TPM_PHYSICAL_PRESENCE_CMD_ENABLE },
    );
    tpm_get_response_code(xmit, TSC_ORD_PhysicalPresence, &command_body)
}

/// Asserts physical presence.
pub fn TlclAssertPhysicalPresence<X: Fn(&[u8], usize) -> (u32, Vec<u8>)>(xmit: &X) -> (rc: u32)
    requires
        transport_ready(*xmit),
    ensures
        tpm1_transaction(
            *xmit,
            TSC_ORD_PhysicalPresence,
            Tpm1CommandBody::PhysicalPresence(
                tpm1_physical_presence_cmd { physical_presence: TPM_PHYSICAL_PRESENCE_PRESENT },
            ),
            rc,
        ),
{
    let command_body = Tpm1CommandBody::PhysicalPresence(
        tpm1_physical_presence_cmd { physical_presence: TPM_PHYSICAL_PRESENCE_PRESENT },
    );
    tpm_get_response_code(xmit, TSC_ORD_PhysicalPresence, &command_body)
}

/// Enables the TPM (PhysicalEnable).
pub fn TlclSetEnable<X: Fn(&[u8], usize) -> (u32, Vec<u8>)>(xmit: &X) -> (rc: u32)
    requires
        transport_ready(*xmit),
    ensures
        tpm1_transaction(*xmit, TPM_ORD_PhysicalEnable, Tpm1CommandBody::NoBody, rc),
{
    tpm_get_response_code(xmit, TPM_ORD_PhysicalEnable, &Tpm1CommandBody::NoBody)
}

} // verus!
