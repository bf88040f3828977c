//! TPM 2.0 response codes that the command layer recognises.
use vstd::prelude::*;

verus! {

pub type TPM_RC = u32;

pub const RC_FMT1: u32 = 0x080;
pub const RC_WARN: u32 = 0x900;

/// The handle is not known (a format-one code).
pub const TPM_RC_HANDLE: TPM_RC = RC_FMT1 + 0x00B;

/// The TPM is busy; try again.
pub const TPM_RC_RETRY: TPM_RC = RC_WARN + 0x023;

} // verus!
