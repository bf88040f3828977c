//! The TPM 1.2 client: each method sends its command through the client's
//! transport, as the function of the same name in `commands::tpm12` does.
use vstd::prelude::*;

use crate::tlcl::commands::tpm12 as cmd;
use crate::tlcl::commands::tpm12::define::{
    is_zero_policy, owner_auth_given, permission_at, policy_of, space_info_code,
    space_info_reported, space_info_request,
};
use crate::tlcl::commands::tpm12::read::tpm1_read_result;
use crate::tlcl::bytes::be32_at;
use crate::tlcl::constants::{
    TPM_E_AUTHFAIL, TPM_E_BUFFER_SIZE, TPM_E_NO_SUCH_COMMAND, TPM_E_WRITE_FAILURE, TPM_SUCCESS,
};
use crate::tlcl::tpm12::constants::{
    TPM_NV_AUTH_POLICY, TPM_ORD_ForceClear, TPM_ORD_NV_DefineSpace, TPM_ORD_NV_WriteValue,
    TPM_ORD_PhysicalEnable, TPM_ORD_SaveState, TPM_ORD_Startup, TPM_PHYSICAL_PRESENCE_CMD_ENABLE,
    TPM_PHYSICAL_PRESENCE_PRESENT, TPM_ST_CLEAR, TPM_ST_STATE, TSC_ORD_PhysicalPresence,
    Tpm1CommandBody, tpm1_nv_define_space_cmd, tpm1_nv_write_cmd, tpm1_physical_presence_cmd,
    tpm1_startup_cmd,
};
use crate::tlcl::tpm12::tpm1_transaction;
use crate::tlcl::{exchanged, transport_ready};

verus! {

/// A TPM 1.2 client talking through `xmit`.
pub struct Client<X> {
    pub xmit: X,
}

impl<X: Fn(&[u8], usize) -> (u32, Vec<u8>)> Client<X> {
    /// A client that talks through `xmit`.
    pub fn new(xmit: X) -> (c: Self)
        ensures
            c.xmit == xmit,
    {
        Client { xmit }
    }

    /// As `commands::tpm12::TlclForceClear`.
    pub fn force_clear(&self) -> (rc: u32)
        requires
            transport_ready(self.xmit),
        ensures
            tpm1_transaction(self.xmit, TPM_ORD_ForceClear, Tpm1CommandBody::NoBody, rc),
    {
        cmd::TlclForceClear(&self.xmit)
    }

    /// As `commands::tpm12::TlclDefineSpace`.
    pub fn define_space(&self, index: u32, perm: u32, size: u32) -> (rc: u32)
        requires
            transport_ready(self.xmit),
        ensures
            rc == TPM_E_WRITE_FAILURE,
    {
        cmd::TlclDefineSpace(&self.xmit, index, perm, size)
    }

    /// As `commands::tpm12::TlclUndefineSpace`.
    pub fn undefine_space(&self, index: u32) -> (rc: u32)
        requires
            transport_ready(self.xmit),
        ensures
            rc == TPM_E_WRITE_FAILURE,
    {
        cmd::TlclUndefineSpace(&self.xmit, index)
    }

    /// As `commands::tpm12::TlclUndefineSpaceEx`.
    pub fn undefine_space_ex(&self, owner_auth: Option<&[u8]>, owner_auth_size: u32, index: u32) -> (rc: u32)
        requires
            transport_ready(self.xmit),
        ensures
            owner_auth_given(owner_auth, owner_auth_size) ==> rc == (if owner_auth_size != 20 {
                TPM_E_AUTHFAIL
            } else {
                TPM_E_NO_SUCH_COMMAND
            }),
            !owner_auth_given(owner_auth, owner_auth_size) ==> rc == TPM_E_WRITE_FAILURE,
    {
        cmd::TlclUndefineSpaceEx(&self.xmit, owner_auth, owner_auth_size, index)
    }

    /// As `commands::tpm12::TlclDefineSpaceEx`.
    pub fn define_space_ex(
        &self,
        owner_auth: Option<&[u8]>,
        owner_auth_size: u32,
        index: u32,
        perm: u32,
        size: u32,
        auth_policy: Option<&TPM_NV_AUTH_POLICY>,
        auth_policy_size: u32,
    ) -> (rc: u32)
        requires
            transport_ready(self.xmit),
        ensures
            owner_auth_given(owner_auth, owner_auth_size) ==> rc == (if owner_auth_size != 20 {
                TPM_E_AUTHFAIL
            } else {
                TPM_E_NO_SUCH_COMMAND
            }),
            !owner_auth_given(owner_auth, owner_auth_size) && auth_policy is Some && auth_policy_size
                != 52 ==> rc == TPM_E_BUFFER_SIZE,
            !owner_auth_given(owner_auth, owner_auth_size) && !(auth_policy is Some
                && auth_policy_size != 52) ==> tpm1_transaction(
                self.xmit,
                TPM_ORD_NV_DefineSpace,
                Tpm1CommandBody::NvDefineSpace(
                    tpm1_nv_define_space_cmd {
                        nvIndex: index,
                        perm,
                        size,
                        auth_policy: policy_of(auth_policy),
                    },
                ),
                rc,
            ),
    {
        cmd::TlclDefineSpaceEx(
            &self.xmit,
            owner_auth,
            owner_auth_size,
            index,
            perm,
            size,
            auth_policy,
            auth_policy_size,
        )
    }

    /// As `commands::tpm12::TlclInitNvAuthPolicy`.
    pub fn init_nv_auth_policy(
        &self,
        pcr_selection_bitmap: u32,
        pcr_values: Option<&[u8]>,
        auth_policy: &mut Option<TPM_NV_AUTH_POLICY>,
        auth_policy_size: &mut u32,
    ) -> (rc: u32)
        ensures
            *final(auth_policy_size) == 52,
            (*old(auth_policy) is None || *old(auth_policy_size) < 52) ==> rc == TPM_E_BUFFER_SIZE
                && *final(auth_policy) == *old(auth_policy),
            !(*old(auth_policy) is None || *old(auth_policy_size) < 52) ==> rc == TPM_SUCCESS
                && (*final(auth_policy) matches Some(p) && is_zero_policy(p)),
    {
        cmd::TlclInitNvAuthPolicy(pcr_selection_bitmap, pcr_values, auth_policy, auth_policy_size)
    }

    /// As `commands::tpm12::TlclGetSpaceInfo`.
    pub fn get_space_info(
        &self,
        index: u32,
        attributes: &mut u32,
        size: &mut u32,
        auth_policy: &mut Option<TPM_NV_AUTH_POLICY>,
        auth_policy_size: &mut u32,
    ) -> (rc: u32)
        requires
            transport_ready(self.xmit),
        ensures
            *final(auth_policy_size) == 52,
            (*old(auth_policy) is None || *old(auth_policy_size) < 52) ==> rc == TPM_E_BUFFER_SIZE
                && *final(auth_policy) == *old(auth_policy),
            !(*old(auth_policy) is None || *old(auth_policy_size) < 52) ==> exists|
                reply: (u32, Vec<u8>),
            |
                {
                    &&& #[trigger] exchanged(self.xmit, space_info_request(index), 2048, reply)
                    &&& rc == space_info_code(index, reply)
                    &&& rc == TPM_SUCCESS ==> (*final(auth_policy) matches Some(p)
                        && space_info_reported(reply.1@, *final(attributes), *final(size), p))
                },
            rc != TPM_SUCCESS ==> *final(attributes) == *old(attributes),
            rc != TPM_SUCCESS ==> *final(size) == *old(size),
    {
        cmd::TlclGetSpaceInfo(&self.xmit, index, attributes, size, auth_policy, auth_policy_size)
    }

    /// As `commands::tpm12::TlclGetPermissions`.
    pub fn get_permissions(&self, index: u32, permissions: &mut u32) -> (rc: u32)
        requires
            transport_ready(self.xmit),
        ensures
            exists|reply: (u32, Vec<u8>)|
                {
                    &&& #[trigger] exchanged(self.xmit, space_info_request(index), 2048, reply)
                    &&& rc == space_info_code(index, reply)
                    &&& rc == TPM_SUCCESS ==> *final(permissions) == be32_at(
                        reply.1@,
                        permission_at(reply.1@) + 2,
                    )
                },
            rc != TPM_SUCCESS ==> *final(permissions) == *old(permissions),
    {
        cmd::TlclGetPermissions(&self.xmit, index, permissions)
    }

    /// As `commands::tpm12::TlclPhysicalPresenceCMDEnable`.
    pub fn physical_presence_cmd_enable(&self) -> (rc: u32)
        requires
            transport_ready(self.xmit),
        ensures
            tpm1_transaction(
                self.xmit,
                TSC_ORD_PhysicalPresence,
                Tpm1CommandBody::PhysicalPresence(
                    tpm1_physical_presence_cmd { physical_presence: TPM_PHYSICAL_PRESENCE_CMD_ENABLE },
                ),
                rc,
            ),
    {
        cmd::TlclPhysicalPresenceCMDEnable(&self.xmit)
    }

    /// As `commands::tpm12::TlclAssertPhysicalPresence`.
    pub fn assert_physical_presence(&self) -> (rc: u32)
        requires
            transport_ready(self.xmit),
        ensures
            tpm1_transaction(
                self.xmit,
                TSC_ORD_PhysicalPresence,
                Tpm1CommandBody::PhysicalPresence(
                    tpm1_physical_presence_cmd { physical_presence: TPM_PHYSICAL_PRESENCE_PRESENT },
                ),
                rc,
            ),
    {
        cmd::TlclAssertPhysicalPresence(&self.xmit)
    }

    /// As `commands::tpm12::TlclSetEnable`.
    pub fn set_enable(&self) -> (rc: u32)
        requires
            transport_ready(self.xmit),
        ensures
            tpm1_transaction(self.xmit, TPM_ORD_PhysicalEnable, Tpm1CommandBody::NoBody, rc),
    {
        cmd::TlclSetEnable(&self.xmit)
    }

    /// As `commands::tpm12::TlclRead`.
    pub fn read(&self, index: u32, outbuf: &mut [u8], length: u32) -> (rc: u32)
        requires
            transport_ready(self.xmit),
            length <= old(outbuf)@.len(),
        ensures
            tpm1_read_result(self.xmit, index, length, 0, old(outbuf)@, final(outbuf)@, rc),
    {
        cmd::TlclRead(&self.xmit, index, outbuf, length)
    }

    /// As `commands::tpm12::TlclReadWithOffset`.
    pub fn read_with_offset(&self, index: u32, size: u32, offset: u32, outbuf: &mut [u8]) -> (rc: u32)
        requires
            transport_ready(self.xmit),
            size <= old(outbuf)@.len(),
        ensures
            tpm1_read_result(self.xmit, index, size, offset, old(outbuf)@, final(outbuf)@, rc),
    {
        cmd::TlclReadWithOffset(&self.xmit, index, size, offset, outbuf)
    }

    /// TPM 1.2 has no NV_ReadPublic command; `_presp` is left as it was.
    pub fn nv_read_public(&self, index: u32, _presp: &mut [u8]) -> (rc: u32)
        ensures
            rc == TPM_E_NO_SUCH_COMMAND,
            final(_presp)@ == old(_presp)@,
    {
        cmd::TlclNVReadPublic(index, _presp)
    }

    /// As `commands::tpm12::TlclStartup`.
    pub fn startup(&self) -> (rc: u32)
        requires
            transport_ready(self.xmit),
        ensures
            tpm1_transaction(
                self.xmit,
                TPM_ORD_Startup,
                Tpm1CommandBody::Startup(tpm1_startup_cmd { startup_type: TPM_ST_CLEAR }),
                rc,
            ),
    {
        cmd::TlclStartup(&self.xmit)
    }

    /// As `commands::tpm12::TlclSaveState`.
    pub fn save_state(&self) -> (rc: u32)
        requires
            transport_ready(self.xmit),
        ensures
            tpm1_transaction(self.xmit, TPM_ORD_SaveState, Tpm1CommandBody::NoBody, rc),
    {
        cmd::TlclSaveState(&self.xmit)
    }

    /// As `commands::tpm12::TlclResume`.
    pub fn resume(&self) -> (rc: u32)
        requires
            transport_ready(self.xmit),
        ensures
            tpm1_transaction(
                self.xmit,
                TPM_ORD_Startup,
                Tpm1CommandBody::Startup(tpm1_startup_cmd { startup_type: TPM_ST_STATE }),
                rc,
            ),
    {
        cmd::TlclResume(&self.xmit)
    }

    /// As `commands::tpm12::TlclWrite`.
    pub fn write(&self, index: u32, data: &[u8], length: u32) -> (rc: u32)
        requires
            transport_ready(self.xmit),
            length <= data@.len(),
            length <= i32::MAX,
        ensures
            exists|c: tpm1_nv_write_cmd|
                {
                    &&& c.nvIndex == index && c.offset == 0 && c.size == length && c.data@ == data@
                    &&& #[trigger] tpm1_transaction(
                        self.xmit,
                        TPM_ORD_NV_WriteValue,
                        Tpm1CommandBody::NvWrite(c),
                        rc,
                    )
                },
    {
        cmd::TlclWrite(&self.xmit, index, data, length)
    }

    /// As `commands::tpm12::TlclWriteWithOffset`.
    pub fn write_with_offset(&self, index: u32, data: &[u8], length: u32, offset: u32) -> (rc: u32)
        requires
            transport_ready(self.xmit),
            length <= data@.len(),
            length <= i32::MAX,
        ensures
            exists|c: tpm1_nv_write_cmd|
                {
                    &&& c.nvIndex == index && c.offset == offset && c.size == length && c.data@
                        == data@
                    &&& #[trigger] tpm1_transaction(
                        self.xmit,
                        TPM_ORD_NV_WriteValue,
                        Tpm1CommandBody::NvWrite(c),
                        rc,
                    )
                },
    {
        cmd::TlclWriteWithOffset(&self.xmit, index, data, length, offset)
    }
}

} // verus!
