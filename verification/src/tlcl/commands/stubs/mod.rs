//! The command family of a build without a TPM: every command is refused
//! as unknown and nothing is written.
use vstd::prelude::*;

use crate::tlcl::constants::TPM_E_NO_SUCH_COMMAND;

verus! {

fn no_such_command() -> (rc: u32)
    ensures
        rc == TPM_E_NO_SUCH_COMMAND,
{
    TPM_E_NO_SUCH_COMMAND
}

/// Refused as unknown: this build has no TPM.
pub fn TlclForceClear() -> (rc: u32)
    ensures
        rc == TPM_E_NO_SUCH_COMMAND,
{
    no_such_command()
}

/// Refused as unknown: this build has no TPM.
pub fn TlclDefineSpace(_index: u32, _perm: u32, _size: u32) -> (rc: u32)
    ensures
        rc == TPM_E_NO_SUCH_COMMAND,
{
    no_such_command()
}

/// Refused as unknown: this build has no TPM.
pub fn TlclUndefineSpace(_index: u32) -> (rc: u32)
    ensures
        rc == TPM_E_NO_SUCH_COMMAND,
{
    no_such_command()
}

/// Refused as unknown: this build has no TPM.
pub fn TlclUndefineSpaceEx(_owner_auth: Option<&[u8]>, _owner_auth_size: u32, _index: u32) -> (rc: u32)
    ensures
        rc == TPM_E_NO_SUCH_COMMAND,
{
    no_such_command()
}

/// Refused as unknown: this build has no TPM.
pub fn TlclDefineSpaceEx(
    _index: u32,
    _perm: u32,
    _size: u32,
    _nv_policy: Option<&[u8]>,
    _nv_policy_size: u32,
) -> (rc: u32)
    ensures
        rc == TPM_E_NO_SUCH_COMMAND,
{
    no_such_command()
}

/// Refused as unknown: this build has no TPM.
pub fn TlclInitNvAuthPolicy(_policy: Option<&[u8]>, _policy_size: u32) -> (rc: u32)
    ensures
        rc == TPM_E_NO_SUCH_COMMAND,
{
    no_such_command()
}

/// Refused as unknown: this build has no TPM.
pub fn TlclGetSpaceInfo(
    _index: u32,
    _attributes: &mut u32,
    _size: &mut u32,
    _auth_policy: &mut [u8],
    _auth_policy_size: &mut u32,
) -> (rc: u32)
    ensures
        rc == TPM_E_NO_SUCH_COMMAND,
        *final(_attributes) == *old(_attributes),
        *final(_size) == *old(_size),
        final(_auth_policy)@ == old(_auth_policy)@,
        *final(_auth_policy_size) == *old(_auth_policy_size),
{
    no_such_command()
}

/// Refused as unknown: this build has no TPM.
pub fn TlclGetPermissions(_index: u32, _permissions: &mut u32) -> (rc: u32)
    ensures
        rc == TPM_E_NO_SUCH_COMMAND,
        *final(_permissions) == *old(_permissions),
{
    no_such_command()
}

/// Refused as unknown: this build has no TPM.
pub fn TlclPhysicalPresenceCMDEnable() -> (rc: u32)
    ensures
        rc == TPM_E_NO_SUCH_COMMAND,
{
    no_such_command()
}

/// Refused as unknown: this build has no TPM.
pub fn TlclAssertPhysicalPresence() -> (rc: u32)
    ensures
        rc == TPM_E_NO_SUCH_COMMAND,
{
    no_such_command()
}

/// Refused as unknown: this build has no TPM.
pub fn TlclSetEnable() -> (rc: u32)
    ensures
        rc == TPM_E_NO_SUCH_COMMAND,
{
    no_such_command()
}

/// Refused as unknown: this build has no TPM.
pub fn TlclRead(_index: u32, _outbuf: &mut [u8], _length: u32) -> (rc: u32)
    ensures
        rc == TPM_E_NO_SUCH_COMMAND,
        final(_outbuf)@ == old(_outbuf)@,
{
    no_such_command()
}

/// Refused as unknown: this build has no TPM.
pub fn TlclReadWithOffset(_index: u32, _size: u32, _offset: u32, _outbuf: &mut [u8]) -> (rc: u32)
    ensures
        rc == TPM_E_NO_SUCH_COMMAND,
        final(_outbuf)@ == old(_outbuf)@,
{
    no_such_command()
}

/// Refused as unknown: this build has no TPM.
pub fn TlclNVReadPublic(_index: u32, _presp: &mut [u8]) -> (rc: u32)
    ensures
        rc == TPM_E_NO_SUCH_COMMAND,
        final(_presp)@ == old(_presp)@,
{
    no_such_command()
}

/// Refused as unknown: this build has no TPM.
pub fn TlclStartup() -> (rc: u32)
    ensures
        rc == TPM_E_NO_SUCH_COMMAND,
{
    no_such_command()
}

/// Refused as unknown: this build has no TPM.
pub fn TlclSaveState() -> (rc: u32)
    ensures
        rc == TPM_E_NO_SUCH_COMMAND,
{
    no_such_command()
}

/// Refused as unknown: this build has no TPM.
pub fn TlclResume() -> (rc: u32)
    ensures
        rc == TPM_E_NO_SUCH_COMMAND,
{
    no_such_command()
}

/// Refused as unknown: this build has no TPM.
pub fn TlclWrite(_index: u32, _data: &[u8], _length: u32) -> (rc: u32)
    ensures
        rc == TPM_E_NO_SUCH_COMMAND,
{
    no_such_command()
}

/// Refused as unknown: this build has no TPM.
pub fn TlclWriteWithOffset(_index: u32, _data: &[u8], _length: u32, _offset: u32) -> (rc: u32)
    ensures
        rc == TPM_E_NO_SUCH_COMMAND,
{
    no_such_command()
}

} // verus!
