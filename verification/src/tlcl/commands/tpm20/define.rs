//! NV space definition through the generic command writer.
use vstd::prelude::*;

use crate::tlcl::constants::{TPM_E_BUFFER_SIZE, TPM_E_WRITE_FAILURE, TPM_SUCCESS};
use crate::tlcl::commands::tpm20::read::TlclNVReadPublic;
use crate::tlcl::transport_ready;
use crate::tlcl::tpm20::constants::{
    HR_NV_INDEX, TPM2B, TPM2_NV_DefineSpace, TPM2_NV_UndefineSpace, TPMA_NV_AUTHREAD,
    TPMA_NV_AUTHWRITE, TPMA_NV_MASK_READ, TPMA_NV_MASK_WRITE, TPMA_NV_PLATFORMCREATE,
    TPMS_NV_PUBLIC, TPM_ALG_SHA256, Tpm2CommandBody, nv_read_public_response,
    tpm2_nv_define_space_cmd, tpm2_nv_undefine_space_cmd,
};
use crate::tlcl::tpm20::{tpm2_transaction, tpm_get_response_code};

verus! {

/// Reads the attributes of NV space `index` into `permissions`, which is
/// written only on success.  The public area cannot be read by this layer
/// (NV_ReadPublic is not built), so the result is a write failure.
pub fn TlclGetPermissions<X: Fn(&[u8], usize) -> (u32, Vec<u8>)>(
    xmit: &X,
    index: u32,
    permissions: &mut u32,
) -> (rc: u32)
    requires
        transport_ready(*xmit),
        HR_NV_INDEX + index <= u32::MAX,
    ensures
        rc == TPM_E_WRITE_FAILURE,
        *final(permissions) == *old(permissions),
{
    let mut pub_resp = nv_read_public_response::zeroed();
    let rv = TlclNVReadPublic(xmit, index, &mut pub_resp);
    if rv != TPM_SUCCESS {
        return rv;
    }
    *permissions = pub_resp.nvPublic.attributes;
    TPM_SUCCESS
}

/// Defines NV space `index` with attributes `perm` (authorisation read and
/// write added when no read or no write right is given) and `size` bytes,
/// with the owner authorisation and the policy when they are given and
/// not empty.  NV_DefineSpace is not among the commands the generic
/// writer builds, so the result is a write failure.
pub fn TlclDefineSpaceEx<X: Fn(&[u8], usize) -> (u32, Vec<u8>)>(
    xmit: &X,
    owner_auth: Option<&[u8]>,
    owner_auth_size: u32,
    index: u32,
    perm: u32,
    size: u32,
    auth_policy: Option<&[u8]>,
    auth_policy_size: u32,
) -> (rc: u32)
    requires
        transport_ready(*xmit),
        HR_NV_INDEX + index <= u32::MAX,
    ensures
        tpm2_transaction(*xmit, TPM2_NV_DefineSpace, rc),
        rc == TPM_E_WRITE_FAILURE,
{
    let mut perm = perm;
    if perm & TPMA_NV_MASK_WRITE == 0 {
        perm = perm | TPMA_NV_AUTHWRITE;
    }
    if perm & TPMA_NV_MASK_READ == 0 {
        perm = perm | TPMA_NV_AUTHREAD;
    }
    let mut define_space = tpm2_nv_define_space_cmd {
        auth: TPM2B::empty(),
        publicInfo: TPMS_NV_PUBLIC::zeroed(),
    };
    define_space.publicInfo.nvIndex = HR_NV_INDEX + index;
    define_space.publicInfo.dataSize = size as u16;
    define_space.publicInfo.attributes = perm;
    define_space.publicInfo.nameAlg = TPM_ALG_SHA256;
    match owner_auth {
        Some(a) => if owner_auth_size > 0 {
            define_space.auth = TPM2B { size: owner_auth_size as u16, buffer: vstd::slice::slice_to_vec(a) };
        },
        None => {},
    }
    match auth_policy {
        Some(p) => if auth_policy_size > 0 {
            define_space.publicInfo.authPolicy = TPM2B {
                size: auth_policy_size as u16,
                buffer: vstd::slice::slice_to_vec(p),
            };
        },
        None => {},
    }
    tpm_get_response_code(xmit, TPM2_NV_DefineSpace, &Tpm2CommandBody::NvDefineSpace(define_space))
}

/// Removes NV space `index`, authorised by the platform when the space was
/// platform-created.  Its attributes cannot be read by this layer, so the
/// result is the write failure of that read.
pub fn TlclUndefineSpaceEx<X: Fn(&[u8], usize) -> (u32, Vec<u8>)>(
    xmit: &X,
    _owner_auth: Option<&[u8]>,
    _owner_auth_size: u32,
    index: u32,
) -> (rc: u32)
    requires
        transport_ready(*xmit),
        HR_NV_INDEX + index <= u32::MAX,
    ensures
        rc == TPM_E_WRITE_FAILURE,
{
    let mut permissions: u32 = 0;
    let rv = TlclGetPermissions(xmit, index, &mut permissions);
    if rv != TPM_SUCCESS {
        return rv;
    }
    let use_platform_auth: u8 = if permissions & TPMA_NV_PLATFORMCREATE > 0 { 1 } else { 0 };
    let undefine_space = Tpm2CommandBody::NvUndefineSpace(
        tpm2_nv_undefine_space_cmd { nvIndex: HR_NV_INDEX + index, use_platform_auth },
    );
    tpm_get_response_code(xmit, TPM2_NV_UndefineSpace, &undefine_space)
}

/// Defines NV space `index` with attributes `perm` and `size` bytes (see
/// `TlclDefineSpaceEx`).
pub fn TlclDefineSpace<X: Fn(&[u8], usize) -> (u32, Vec<u8>)>(
    xmit: &X,
    index: u32,
    perm: u32,
    size: u32,
) -> (rc: u32)
    requires
        transport_ready(*xmit),
        HR_NV_INDEX + index <= u32::MAX,
    ensures
        tpm2_transaction(*xmit, TPM2_NV_DefineSpace, rc),
        rc == TPM_E_WRITE_FAILURE,
{
    TlclDefineSpaceEx(xmit, None, 0, index, perm, size, None, 0)
}

/// Removes NV space `index` (see `TlclUndefineSpaceEx`).
pub fn TlclUndefineSpace<X: Fn(&[u8], usize) -> (u32, Vec<u8>)>(xmit: &X, index: u32) -> (rc: u32)
    requires
        transport_ready(*xmit),
        HR_NV_INDEX + index <= u32::MAX,
    ensures
        rc == TPM_E_WRITE_FAILURE,
{
    TlclUndefineSpaceEx(xmit, None, 0, index)
}

/// TPM 2.0 keeps no PCR-bound policy here: the policy size becomes 0 and
/// the call succeeds.
pub fn TlclInitNvAuthPolicy(
    _pcr_selection_bitmap: u32,
    _pcr_values: Option<&[u8]>,
    _auth_policy: &mut [u8],
    auth_policy_size: &mut u32,
) -> (rc: u32)
    ensures
        rc == TPM_SUCCESS,
        *final(auth_policy_size) == 0,
        final(_auth_policy)@ == old(_auth_policy)@,
{
    *auth_policy_size = 0;
    TPM_SUCCESS
}

/// Reads the attributes, data size and authorisation policy of NV space
/// `index`.  On success the policy is copied into `auth_policy`, which must
/// hold `auth_policy_size` bytes: a policy longer than that, or a policy
/// with no buffer, is a buffer-size error.  The public area cannot be read
/// by this layer (NV_ReadPublic is not built), so the result is a write
/// failure and nothing is written.
pub fn TlclGetSpaceInfo<X: Fn(&[u8], usize) -> (u32, Vec<u8>)>(
    xmit: &X,
    index: u32,
    attributes: &mut u32,
    size: &mut u32,
    auth_policy: &mut Option<Vec<u8>>,
    auth_policy_size: &mut u32,
) -> (rc: u32)
    requires
        transport_ready(*xmit),
        HR_NV_INDEX + index <= u32::MAX,
        *old(auth_policy) is Some ==> old(auth_policy)->0@.len() >= *old(auth_policy_size),
    ensures
        rc == TPM_E_WRITE_FAILURE,
        *final(attributes) == *old(attributes),
        *final(size) == *old(size),
        *final(auth_policy) == *old(auth_policy),
        *final(auth_policy_size) == *old(auth_policy_size),
{
    let mut resp = nv_read_public_response::zeroed();
    let rv = TlclNVReadPublic(xmit, index, &mut resp);
    if rv != TPM_SUCCESS {
        return rv;
    }
    *attributes = resp.nvPublic.attributes;
    *size = resp.nvPublic.dataSize as u32;
    let policy_size = resp.nvPublic.authPolicy.size as u32;
    if policy_size > *auth_policy_size {
        return TPM_E_BUFFER_SIZE;
    }
    if policy_size > 0 && auth_policy.is_none() {
        return TPM_E_BUFFER_SIZE;
    }
    *auth_policy_size = policy_size;
    if policy_size > 0 {
        match auth_policy {
            Some(dest) => {
                let src = &resp.nvPublic.authPolicy.buffer;
                let n = policy_size as usize;
                let mut i: usize = 0;
                while i < n && i < src.len() && i < dest.len()
                    invariant
                        i <= n,
                    decreases n - i,
                {
                    dest.set(i, src[i]);
                    i = i + 1;
                }
            },
            None => {},
        }
    }
    TPM_SUCCESS
}

} // verus!
