//! The Tlcl command functions, one family per TPM version and one for
//! builds without a TPM.
pub mod stubs;
pub mod tpm12;
pub mod tpm20;
