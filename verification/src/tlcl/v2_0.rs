//! The TPM 2.0 client: each method sends its command through the client's
//! transport, as the function of the same name in `commands::tpm20` does.
use vstd::prelude::*;

use crate::tlcl::commands::tpm20 as cmd;
use crate::tlcl::constants::{TPM_E_WRITE_FAILURE, TPM_SUCCESS};
use crate::tlcl::transport_ready;
use crate::tlcl::tpm20::constants::{
    HR_NV_INDEX, TPM2_Clear, TPM2_NV_DefineSpace, TPM2_NV_Read, TPM2_NV_ReadPublic, TPM2_NV_Write,
    TPM2_Shutdown, TPM2_Startup, nv_read_public_response,
};
use crate::tlcl::tpm20::{lemma_tpm2_unbuilt_commands_fail, tpm2_transaction};

verus! {

/// A TPM 2.0 client talking through `xmit`.
pub struct Client<X> {
    pub xmit: X,
}

impl<X: Fn(&[u8], usize) -> (u32, Vec<u8>)> Client<X> {
    /// A client that talks through `xmit`.
    pub fn new(xmit: X) -> (c: Self)
        ensures
            c.xmit == xmit,
    {
        Client { xmit }
    }

    /// As `commands::tpm20::TlclForceClear`.
    pub fn force_clear(&self) -> (rc: u32)
        requires
            transport_ready(self.xmit),
        ensures
            tpm2_transaction(self.xmit, TPM2_Clear, rc),
    {
        cmd::TlclForceClear(&self.xmit)
    }

    /// As `commands::tpm20::TlclDefineSpace`.
    pub fn define_space(&self, index: u32, perm: u32, size: u32) -> (rc: u32)
        requires
            transport_ready(self.xmit),
            HR_NV_INDEX + index <= u32::MAX,
        ensures
            tpm2_transaction(self.xmit, TPM2_NV_DefineSpace, rc),
            rc == TPM_E_WRITE_FAILURE,
    {
        cmd::TlclDefineSpace(&self.xmit, index, perm, size)
    }

    /// As `commands::tpm20::TlclUndefineSpace`.
    pub fn undefine_space(&self, index: u32) -> (rc: u32)
        requires
            transport_ready(self.xmit),
            HR_NV_INDEX + index <= u32::MAX,
        ensures
            rc == TPM_E_WRITE_FAILURE,
    {
        cmd::TlclUndefineSpace(&self.xmit, index)
    }

    /// As `commands::tpm20::TlclUndefineSpaceEx`.
    pub fn undefine_space_ex(&self, owner_auth: Option<&[u8]>, owner_auth_size: u32, index: u32) -> (rc: u32)
        requires
            transport_ready(self.xmit),
            HR_NV_INDEX + index <= u32::MAX,
        ensures
            rc == TPM_E_WRITE_FAILURE,
    {
        cmd::TlclUndefineSpaceEx(&self.xmit, owner_auth, owner_auth_size, index)
    }

    /// As `commands::tpm20::TlclDefineSpaceEx`.
    pub fn define_space_ex(
        &self,
        owner_auth: Option<&[u8]>,
        owner_auth_size: u32,
        index: u32,
        perm: u32,
        size: u32,
        auth_policy: Option<&[u8]>,
        auth_policy_size: u32,
    ) -> (rc: u32)
        requires
            transport_ready(self.xmit),
            HR_NV_INDEX + index <= u32::MAX,
        ensures
            tpm2_transaction(self.xmit, TPM2_NV_DefineSpace, rc),
            rc == TPM_E_WRITE_FAILURE,
    {
        cmd::TlclDefineSpaceEx(
            &self.xmit,
            owner_auth,
            owner_auth_size,
            index,
            perm,
            size,
            auth_policy,
            auth_policy_size,
        )
    }

    /// As `commands::tpm20::TlclInitNvAuthPolicy`.
    pub fn init_nv_auth_policy(
        &self,
        pcr_selection_bitmap: u32,
        pcr_values: Option<&[u8]>,
        auth_policy: &mut [u8],
        auth_policy_size: &mut u32,
    ) -> (rc: u32)
        ensures
            rc == TPM_SUCCESS,
            *final(auth_policy_size) == 0,
            final(auth_policy)@ == old(auth_policy)@,
    {
        cmd::TlclInitNvAuthPolicy(pcr_selection_bitmap, pcr_values, auth_policy, auth_policy_size)
    }

    /// As `commands::tpm20::TlclGetSpaceInfo`.
    pub fn get_space_info(
        &self,
        index: u32,
        attributes: &mut u32,
        size: &mut u32,
        auth_policy: &mut Option<Vec<u8>>,
        auth_policy_size: &mut u32,
    ) -> (rc: u32)
        requires
            transport_ready(self.xmit),
            HR_NV_INDEX + index <= u32::MAX,
            *old(auth_policy) is Some ==> old(auth_policy)->0@.len() >= *old(auth_policy_size),
        ensures
            rc == TPM_E_WRITE_FAILURE,
            *final(attributes) == *old(attributes),
            *final(size) == *old(size),
            *final(auth_policy) == *old(auth_policy),
            *final(auth_policy_size) == *old(auth_policy_size),
    {
        cmd::TlclGetSpaceInfo(&self.xmit, index, attributes, size, auth_policy, auth_policy_size)
    }

    /// As `commands::tpm20::TlclGetPermissions`.
    pub fn get_permissions(&self, index: u32, permissions: &mut u32) -> (rc: u32)
        requires
            transport_ready(self.xmit),
            HR_NV_INDEX + index <= u32::MAX,
        ensures
            rc == TPM_E_WRITE_FAILURE,
            *final(permissions) == *old(permissions),
    {
        cmd::TlclGetPermissions(&self.xmit, index, permissions)
    }

    /// As `commands::tpm20::TlclPhysicalPresenceCMDEnable`.
    pub fn physical_presence_cmd_enable(&self) -> (rc: u32)
        ensures
            rc == TPM_SUCCESS,
    {
        cmd::TlclPhysicalPresenceCMDEnable()
    }

    /// As `commands::tpm20::TlclAssertPhysicalPresence`.
    pub fn assert_physical_presence(&self) -> (rc: u32)
        ensures
            rc == TPM_SUCCESS,
    {
        cmd::TlclAssertPhysicalPresence()
    }

    /// As `commands::tpm20::TlclSetEnable`.
    pub fn set_enable(&self) -> (rc: u32)
        ensures
            rc == TPM_SUCCESS,
    {
        cmd::TlclSetEnable()
    }

    /// As `commands::tpm20::TlclRead`.
    pub fn read(&self, index: u32, outbuf: &mut [u8], length: u32) -> (rc: u32)
        requires
            transport_ready(self.xmit),
            HR_NV_INDEX + index <= u32::MAX,
            length <= old(outbuf)@.len(),
        ensures
            tpm2_transaction(self.xmit, TPM2_NV_Read, rc),
            rc == TPM_E_WRITE_FAILURE,
            final(outbuf)@ == old(outbuf)@,
    {
        cmd::TlclRead(&self.xmit, index, outbuf, length)
    }

    /// As `commands::tpm20::TlclReadWithOffset`.
    pub fn read_with_offset(&self, index: u32, size: u32, offset: u32, outbuf: &mut [u8]) -> (rc: u32)
        requires
            transport_ready(self.xmit),
            HR_NV_INDEX + index <= u32::MAX,
            size <= old(outbuf)@.len(),
        ensures
            tpm2_transaction(self.xmit, TPM2_NV_Read, rc),
            rc == TPM_E_WRITE_FAILURE,
            final(outbuf)@ == old(outbuf)@,
    {
        cmd::TlclReadWithOffset(&self.xmit, index, size, offset, outbuf)
    }

    /// As `commands::tpm20::TlclNVReadPublic`.
    pub fn nv_read_public(&self, index: u32, presp: &mut nv_read_public_response) -> (rc: u32)
        requires
            transport_ready(self.xmit),
            HR_NV_INDEX + index <= u32::MAX,
        ensures
            tpm2_transaction(self.xmit, TPM2_NV_ReadPublic, rc),
            rc == TPM_E_WRITE_FAILURE,
            *final(presp) == *old(presp),
    {
        cmd::TlclNVReadPublic(&self.xmit, index, presp)
    }

    /// As `commands::tpm20::TlclStartup`.
    pub fn startup(&self) -> (rc: u32)
        requires
            transport_ready(self.xmit),
        ensures
            tpm2_transaction(self.xmit, TPM2_Startup, rc),
            rc == TPM_E_WRITE_FAILURE,
    {
        cmd::TlclStartup(&self.xmit)
    }

    /// As `commands::tpm20::TlclSaveState`.
    pub fn save_state(&self) -> (rc: u32)
        requires
            transport_ready(self.xmit),
        ensures
            tpm2_transaction(self.xmit, TPM2_Shutdown, rc),
            rc == TPM_E_WRITE_FAILURE,
    {
        cmd::TlclSaveState(&self.xmit)
    }

    /// As `commands::tpm20::TlclResume`.
    pub fn resume(&self) -> (rc: u32)
        requires
            transport_ready(self.xmit),
        ensures
            tpm2_transaction(self.xmit, TPM2_Startup, rc),
            rc == TPM_E_WRITE_FAILURE,
    {
        cmd::TlclResume(&self.xmit)
    }

    /// As `commands::tpm20::TlclWrite`.
    pub fn write(&self, index: u32, data: &[u8], length: u32) -> (rc: u32)
        requires
            transport_ready(self.xmit),
            HR_NV_INDEX + index <= u32::MAX,
        ensures
            tpm2_transaction(self.xmit, TPM2_NV_Write, rc),
            rc == TPM_E_WRITE_FAILURE,
    {
        cmd::TlclWrite(&self.xmit, index, data, length)
    }

    /// As `commands::tpm20::TlclWriteWithOffset`.
    pub fn write_with_offset(&self, index: u32, data: &[u8], length: u32, offset: u32) -> (rc: u32)
        requires
            transport_ready(self.xmit),
            HR_NV_INDEX + index <= u32::MAX,
            offset <= u16::MAX,
        ensures
            tpm2_transaction(self.xmit, TPM2_NV_Write, rc),
            rc == TPM_E_WRITE_FAILURE,
    {
        cmd::TlclWriteWithOffset(&self.xmit, index, data, length, offset)
    }
}

/// The client's `define_space_ex` (`rc_client`) has the same result as
/// `commands::tpm20::TlclDefineSpaceEx` given the same arguments
/// (`rc_command`): both send NV_DefineSpace through the generic command
/// writer, which does not build it, so both end in a write failure.
pub proof fn lemma_client_define_space_ex_is_command<X: Fn(&[u8], usize) -> (u32, Vec<u8>)>(
    xmit: X,
    rc_client: u32,
    rc_command: u32,
)
    requires
        tpm2_transaction(xmit, TPM2_NV_DefineSpace, rc_client),
        tpm2_transaction(xmit, TPM2_NV_DefineSpace, rc_command),
    ensures
        rc_client == rc_command,
        rc_client == TPM_E_WRITE_FAILURE,
{
    lemma_tpm2_unbuilt_commands_fail(xmit, TPM2_NV_DefineSpace, rc_client);
    lemma_tpm2_unbuilt_commands_fail(xmit, TPM2_NV_DefineSpace, rc_command);
}

} // verus!
