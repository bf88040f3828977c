//! The TPM 1.2 command family.
pub mod clear;
pub mod define;
pub mod define_space;
pub mod physical_presence;
pub mod read;
pub mod startup;
pub mod write;

pub use clear::TlclForceClear;
pub use define::{
    TlclDefineSpace, TlclDefineSpaceEx, TlclGetPermissions, TlclGetSpaceInfo, TlclInitNvAuthPolicy,
    TlclUndefineSpace, TlclUndefineSpaceEx,
};
pub use physical_presence::{TlclAssertPhysicalPresence, TlclPhysicalPresenceCMDEnable, TlclSetEnable};
pub use read::{TlclNVReadPublic, TlclRead, TlclReadWithOffset};
pub use startup::{TlclResume, TlclSaveState, TlclStartup};
pub use write::{TlclWrite, TlclWriteWithOffset};
