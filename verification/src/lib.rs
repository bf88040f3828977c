//! Chrome(OS) device helpers: the TPM command layer (Tlcl) for TPM 1.2 and
//! TPM 2.0, and the text user-interface building blocks.
#![allow(non_snake_case)]
#![allow(non_camel_case_types)]
#![allow(non_upper_case_globals)]

pub mod tlcl;
pub mod ui;
