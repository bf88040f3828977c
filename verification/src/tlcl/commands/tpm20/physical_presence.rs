//! TPM 2.0 has no physical-presence commands; these succeed doing nothing.
use vstd::prelude::*;

use crate::tlcl::constants::TPM_SUCCESS;

verus! {

/// Succeeds: there is nothing to enable on TPM 2.0.
pub fn TlclPhysicalPresenceCMDEnable() -> (rc: u32)
    ensures
        rc == TPM_SUCCESS,
{
    0x00
}

/// Succeeds: there is nothing to assert on TPM 2.0.
pub fn TlclAssertPhysicalPresence() -> (rc: u32)
    ensures
        rc == TPM_SUCCESS,
{
    0x00
}

/// Succeeds: the TPM is always enabled on TPM 2.0.
pub fn TlclSetEnable() -> (rc: u32)
    ensures
        rc == TPM_SUCCESS,
{
    0x00
}

} // verus!
