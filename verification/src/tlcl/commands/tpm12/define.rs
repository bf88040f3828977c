use vstd::prelude::*;

use crate::tlcl::bytes::{be16_at, be16_bytes, be32_at, be32_bytes};
use crate::tlcl::constants::{
    TPM_E_AUTHFAIL, TPM_E_BUFFER_SIZE, TPM_E_INVALID_RESPONSE, TPM_E_NO_SUCH_COMMAND,
    TPM_E_RESPONSE_TOO_LARGE, TPM_E_WRITE_FAILURE, TPM_SUCCESS,
};
use crate::tlcl::tpm12::constants::{
    TPM_AUTH_DATA_LEN, TPM_CAP_NV_INDEX, TPM_DIGEST, TPM_NV_AUTH_POLICY, TPM_NV_AUTH_POLICY_SIZE,
    TPM_ORD_GetCapability, TPM_ORD_NV_DefineSpace, TPM_PCR_INFO_SHORT, TPM_PCR_SELECTION,
    TPM_TAG_RQU_COMMAND, TPM_TAG_RSP_COMMAND, Tpm1CommandBody, tpm1_nv_define_space_cmd,
};
use crate::tlcl::tpm12::utils::{
    decode_pcr_info, pcr_info_decodable, pcr_info_decoded, pcr_info_encoded_len, read_be16,
    read_be32, write_be16, write_be32,
};
use crate::tlcl::tpm12::{tpm1_transaction, tpm_get_response_code};
use crate::tlcl::{
    answers_alike, exchanged, lemma_exchanged_unique, send_recv_rc, transport_ready,
    vb2ex_tpm_send_recv,
};

verus! {

/// The policy behind an optional reference.
pub open spec fn policy_of(p: Option<&TPM_NV_AUTH_POLICY>) -> Option<TPM_NV_AUTH_POLICY> {
    match p {
        Some(q) => Some(*q),
        None => None,
    }
}

/// Owner authorisation was offered (TPM 1.2 supports none).
pub open spec fn owner_auth_given(owner_auth: Option<&[u8]>, owner_auth_size: u32) -> bool {
    owner_auth is Some || owner_auth_size != 0
}

/// Defines NV space `index` with permissions `perm`, `size` bytes and the
/// PCR policy `auth_policy` (of `auth_policy_size` bytes).  Owner
/// authorisation is refused: a wrong size is an authorisation failure, the
/// right one an unsupported command.  A policy whose size is not that of a
/// policy is a buffer-size error.  Without a policy the command cannot be
/// built (a write failure).
pub fn TlclDefineSpaceEx<X: Fn(&[u8], usize) -> (u32, Vec<u8>)>(
    xmit: &X,
    owner_auth: Option<&[u8]>,
    owner_auth_size: u32,
    index: u32,
    perm: u32,
    size: u32,
    auth_policy: Option<&TPM_NV_AUTH_POLICY>,
    auth_policy_size: u32,
) -> (rc: u32)
    requires
        transport_ready(*xmit),
    ensures
        owner_auth_given(owner_auth, owner_auth_size) ==> rc == (if owner_auth_size != 20 {
            TPM_E_AUTHFAIL
        } else {
            TPM_E_NO_SUCH_COMMAND
        }),
        !owner_auth_given(owner_auth, owner_auth_size) && auth_policy is Some && auth_policy_size
            != 52 ==> rc == TPM_E_BUFFER_SIZE,
        !owner_auth_given(owner_auth, owner_auth_size) && !(auth_policy is Some && auth_policy_size
            != 52) ==> tpm1_transaction(
            *xmit,
            TPM_ORD_NV_DefineSpace,
            Tpm1CommandBody::NvDefineSpace(
                tpm1_nv_define_space_cmd {
                    nvIndex: index,
                    perm,
                    size,
                    auth_policy: policy_of(auth_policy),
                },
            ),
            rc,
        ),
{
    if owner_auth.is_some() || owner_auth_size != 0 {
        if owner_auth_size as usize != TPM_AUTH_DATA_LEN {
            return TPM_E_AUTHFAIL;
        }
        return TPM_E_NO_SUCH_COMMAND;
    }
    if auth_policy.is_some() && auth_policy_size != TPM_NV_AUTH_POLICY_SIZE as u32 {
        return TPM_E_BUFFER_SIZE;
    }
    let policy = match auth_policy {
        Some(p) => Some(*p),
        None => None,
    };
    let cmd = Tpm1CommandBody::NvDefineSpace(
        tpm1_nv_define_space_cmd { nvIndex: index, perm, size, auth_policy: policy },
    );
    tpm_get_response_code(xmit, TPM_ORD_NV_DefineSpace, &cmd)
}

/// Defines NV space `index` without a PCR policy, which TPM 1.2
/// NV_DefineSpace needs: the command cannot be built.
pub fn TlclDefineSpace<X: Fn(&[u8], usize) -> (u32, Vec<u8>)>(
    xmit: &X,
    index: u32,
    perm: u32,
    size: u32,
) -> (rc: u32)
    requires
        transport_ready(*xmit),
    ensures
        rc == TPM_E_WRITE_FAILURE,
{
    TlclDefineSpaceEx(xmit, None, 0, index, perm, size, None, 0)
}

/// Removes NV space `index`: a definition with no permissions and no size.
pub fn TlclUndefineSpaceEx<X: Fn(&[u8], usize) -> (u32, Vec<u8>)>(
    xmit: &X,
    owner_auth: Option<&[u8]>,
    owner_auth_size: u32,
    index: u32,
) -> (rc: u32)
    requires
        transport_ready(*xmit),
    ensures
        owner_auth_given(owner_auth, owner_auth_size) ==> rc == (if owner_auth_size != 20 {
            TPM_E_AUTHFAIL
        } else {
            TPM_E_NO_SUCH_COMMAND
        }),
        !owner_auth_given(owner_auth, owner_auth_size) ==> rc == TPM_E_WRITE_FAILURE,
{
    TlclDefineSpaceEx(xmit, owner_auth, owner_auth_size, index, 0, 0, None, 0)
}

/// Removes NV space `index` without owner authorisation.
pub fn TlclUndefineSpace<X: Fn(&[u8], usize) -> (u32, Vec<u8>)>(xmit: &X, index: u32) -> (rc: u32)
    requires
        transport_ready(*xmit),
    ensures
        rc == TPM_E_WRITE_FAILURE,
{
    TlclUndefineSpaceEx(xmit, None, 0, index)
}

/// A policy whose every byte is zero.
pub open spec fn is_zero_policy(p: TPM_NV_AUTH_POLICY) -> bool {
    &&& is_zero_pcr_info(p.pcr_info_read)
    &&& is_zero_pcr_info(p.pcr_info_write)
}

/// PCR info whose every byte is zero.
pub open spec fn is_zero_pcr_info(p: TPM_PCR_INFO_SHORT) -> bool {
    &&& p.pcrSelection.sizeOfSelect == 0
    &&& p.pcrSelection.pcrSelect@ == seq![0u8, 0u8, 0u8]
    &&& p.localityAtRelease == 0
    &&& p.digestAtRelease.digest@ == Seq::new(20, |i: int| 0u8)
}

fn zero_pcr_info() -> (p: TPM_PCR_INFO_SHORT)
    ensures
        is_zero_pcr_info(p),
{
    let p = TPM_PCR_INFO_SHORT {
        pcrSelection: TPM_PCR_SELECTION { sizeOfSelect: 0, pcrSelect: [0u8; 3] },
        localityAtRelease: 0,
        digestAtRelease: TPM_DIGEST { digest: [0u8; 20] },
    };
    assert(p.pcrSelection.pcrSelect@ =~= seq![0u8, 0u8, 0u8]);
    assert(p.digestAtRelease.digest@ =~= Seq::new(20, |i: int| 0u8));
    p
}

fn zero_policy() -> (p: TPM_NV_AUTH_POLICY)
    ensures
        is_zero_policy(p),
{
    TPM_NV_AUTH_POLICY { pcr_info_read: zero_pcr_info(), pcr_info_write: zero_pcr_info() }
}

/// Prepares a PCR policy: `auth_policy_size` becomes the policy size;
/// without a policy, or with less room than that, the result is a
/// buffer-size error, else the policy is cleared.
pub fn TlclInitNvAuthPolicy(
    _pcr_selection_bitmap: u32,
    _pcr_values: Option<&[u8]>,
    auth_policy: &mut Option<TPM_NV_AUTH_POLICY>,
    auth_policy_size: &mut u32,
) -> (rc: u32)
    ensures
        *final(auth_policy_size) == 52,
        (*old(auth_policy) is None || *old(auth_policy_size) < 52) ==> rc == TPM_E_BUFFER_SIZE
            && *final(auth_policy) == *old(auth_policy),
        !(*old(auth_policy) is None || *old(auth_policy_size) < 52) ==> rc == TPM_SUCCESS
            && (*final(auth_policy) matches Some(p) && is_zero_policy(p)),
{
    let required = TPM_NV_AUTH_POLICY_SIZE as u32;
    let provided = *auth_policy_size;
    *auth_policy_size = required;
    if auth_policy.is_none() || provided < required {
        return TPM_E_BUFFER_SIZE;
    }
    *auth_policy = Some(zero_policy());
    TPM_SUCCESS
}

/// The GetCapability request for the public data of NV space `index`.
pub open spec fn space_info_request(index: u32) -> Seq<u8> {
    be16_bytes(TPM_TAG_RQU_COMMAND) + be32_bytes(22) + be32_bytes(TPM_ORD_GetCapability)
        + be32_bytes(TPM_CAP_NV_INDEX) + be32_bytes(4) + be32_bytes(index)
}

/// Where the write policy starts in a space-info response `s`.
pub open spec fn write_policy_at(s: Seq<u8>) -> int {
    20 + pcr_info_encoded_len(s, 20)
}

/// Where the permissions part starts in a space-info response `s`.
pub open spec fn permission_at(s: Seq<u8>) -> int {
    write_policy_at(s) + pcr_info_encoded_len(s, write_policy_at(s))
}

/// The code for a space-info response `s` about `index`: the TPM's code if
/// it is not success; an invalid response unless `s` holds a capability
/// block that fits, names `index`, holds two PCR policies and ends with
/// exactly the thirteen bytes of permissions, flags and size; else success.
pub open spec fn space_info_rc(index: u32, s: Seq<u8>) -> u32 {
    let n = s.len() as int;
    let cap = be32_at(s, 10) as int;
    if n > 2048 {
        TPM_E_RESPONSE_TOO_LARGE
    } else if n < 14 || be16_at(s, 0) != TPM_TAG_RSP_COMMAND {
        TPM_E_INVALID_RESPONSE
    } else if be32_at(s, 6) != TPM_SUCCESS {
        be32_at(s, 6)
    } else if cap > n - 14 || cap < 6 || be32_at(s, 16) != index {
        TPM_E_INVALID_RESPONSE
    } else if !pcr_info_decodable(s, 20, 14 + cap) || !pcr_info_decodable(
        s,
        write_policy_at(s),
        14 + cap,
    ) {
        TPM_E_INVALID_RESPONSE
    } else if 14 + cap - permission_at(s) != 13 {
        TPM_E_INVALID_RESPONSE
    } else {
        TPM_SUCCESS
    }
}

/// The code of a space-info query for the transport's `reply`.
pub open spec fn space_info_code(index: u32, reply: (u32, Vec<u8>)) -> u32 {
    if send_recv_rc(reply, 2048) != TPM_SUCCESS {
        send_recv_rc(reply, 2048)
    } else {
        space_info_rc(index, reply.1@)
    }
}

/// What a successful space-info query reports from response `s`.
pub open spec fn space_info_reported(
    s: Seq<u8>,
    attributes: u32,
    size: u32,
    policy: TPM_NV_AUTH_POLICY,
) -> bool {
    &&& pcr_info_decoded(s, 20, policy.pcr_info_read)
    &&& pcr_info_decoded(s, write_policy_at(s), policy.pcr_info_write)
    &&& attributes == be32_at(s, permission_at(s) + 2)
    &&& size == be32_at(s, permission_at(s) + 9)
}

/// Reads the permissions, size and PCR policies of NV space `index`.
/// `auth_policy_size` becomes the policy size; without a policy, or with
/// less room than that, the result is a buffer-size error.
pub fn TlclGetSpaceInfo<X: Fn(&[u8], usize) -> (u32, Vec<u8>)>(
    xmit: &X,
    index: u32,
    attributes: &mut u32,
    size: &mut u32,
    auth_policy: &mut Option<TPM_NV_AUTH_POLICY>,
    auth_policy_size: &mut u32,
) -> (rc: u32)
    requires
        transport_ready(*xmit),
    ensures
        *final(auth_policy_size) == 52,
        (*old(auth_policy) is None || *old(auth_policy_size) < 52) ==> rc == TPM_E_BUFFER_SIZE
            && *final(auth_policy) == *old(auth_policy),
        !(*old(auth_policy) is None || *old(auth_policy_size) < 52) ==> exists|
            reply: (u32, Vec<u8>),
        |
            {
                &&& #[trigger] exchanged(*xmit, space_info_request(index), 2048, reply)
                &&& rc == space_info_code(index, reply)
                &&& rc == TPM_SUCCESS ==> (*final(auth_policy) matches Some(p) && space_info_reported(
                    reply.1@,
                    *final(attributes),
                    *final(size),
                    p,
                ))
            },
        rc != TPM_SUCCESS ==> *final(attributes) == *old(attributes) && *final(size) == *old(size),
{
    let needed_policy_size = TPM_NV_AUTH_POLICY_SIZE as u32;
    let provided_policy_size = *auth_policy_size;
    *auth_policy_size = needed_policy_size;
    let mut policy = match auth_policy {
        Some(p) => *p,
        None => {
            return TPM_E_BUFFER_SIZE;
        },
    };
    if provided_policy_size < needed_policy_size {
        return TPM_E_BUFFER_SIZE;
    }
    let mut cmd = [0u8; 22];
    write_be16(&mut cmd, 0, TPM_TAG_RQU_COMMAND);
    write_be32(&mut cmd, 2, 22);
    write_be32(&mut cmd, 6, TPM_ORD_GetCapability);
    write_be32(&mut cmd, 10, TPM_CAP_NV_INDEX);
    write_be32(&mut cmd, 14, 4);
    write_be32(&mut cmd, 18, index);
    assert(cmd@ =~= space_info_request(index));
    let mut response: Vec<u8> = Vec::new();
    let mut response_size: u32 = 2048;
    let rv = vb2ex_tpm_send_recv(xmit, &cmd, &mut response, &mut response_size);
    let ghost reply = choose|reply: (u32, Vec<u8>)|
        {
            &&& #[trigger] exchanged(*xmit, space_info_request(index), 2048, reply)
            &&& rv == send_recv_rc(reply, 2048)
            &&& rv == TPM_SUCCESS ==> response@ == reply.1@ && response_size == reply.1@.len()
        };
    if rv != TPM_SUCCESS {
        return rv;
    }
    let ghost s = response@;
    if response_size > 2048 {
        return TPM_E_RESPONSE_TOO_LARGE;
    }
    if response_size < 14 {
        return TPM_E_INVALID_RESPONSE;
    }
    if read_be16(&response, 0) != TPM_TAG_RSP_COMMAND {
        return TPM_E_INVALID_RESPONSE;
    }
    let tpm_rc = read_be32(&response, 6);
    if tpm_rc != TPM_SUCCESS {
        return tpm_rc;
    }
    let mut cursor: usize = 10;
    let cap_size = read_be32(&response, cursor) as usize;
    cursor = cursor + 4;
    if cap_size > response_size as usize - cursor {
        return TPM_E_INVALID_RESPONSE;
    }
    let end = cursor + cap_size;
    if end - cursor < 6 {
        return TPM_E_INVALID_RESPONSE;
    }
    cursor = cursor + 2;
    let response_index = read_be32(&response, cursor);
    cursor = cursor + 4;
    if response_index != index {
        return TPM_E_INVALID_RESPONSE;
    }
    if !decode_pcr_info(&response, &mut cursor, end, &mut policy.pcr_info_read) {
        return TPM_E_INVALID_RESPONSE;
    }
    *auth_policy = Some(policy);
    if !decode_pcr_info(&response, &mut cursor, end, &mut policy.pcr_info_write) {
        return TPM_E_INVALID_RESPONSE;
    }
    *auth_policy = Some(policy);
    if end - cursor != 13 {
        return TPM_E_INVALID_RESPONSE;
    }
    cursor = cursor + 2;
    *attributes = read_be32(&response, cursor);
    cursor = cursor + 4;
    cursor = cursor + 3;
    *size = read_be32(&response, cursor);
    TPM_SUCCESS
}

/// On a transport that answers alike, `TlclGetPermissions` (`rc_p`,
/// `perms`) returns the same code as `TlclGetSpaceInfo` given room for a
/// policy (`rc_i`); on success the permissions it reports are the
/// attributes the space-info query reports, and on failure they are left as
/// they were.  (The code may be any the TPM returns, a buffer-size code
/// included.)
pub proof fn lemma_permissions_match_space_info<X: Fn(&[u8], usize) -> (u32, Vec<u8>)>(
    xmit: X,
    index: u32,
    old_perms: u32,
    perms: u32,
    rc_p: u32,
    attributes: u32,
    size: u32,
    policy: Option<TPM_NV_AUTH_POLICY>,
    rc_i: u32,
)
    requires
        answers_alike(xmit),
        exists|reply: (u32, Vec<u8>)|
            {
                &&& #[trigger] exchanged(xmit, space_info_request(index), 2048, reply)
                &&& rc_p == space_info_code(index, reply)
                &&& rc_p == TPM_SUCCESS ==> perms == be32_at(reply.1@, permission_at(reply.1@) + 2)
            },
        rc_p != TPM_SUCCESS ==> perms == old_perms,
        exists|reply: (u32, Vec<u8>)|
            {
                &&& #[trigger] exchanged(xmit, space_info_request(index), 2048, reply)
                &&& rc_i == space_info_code(index, reply)
                &&& rc_i == TPM_SUCCESS ==> (policy matches Some(p) && space_info_reported(
                    reply.1@,
                    attributes,
                    size,
                    p,
                ))
            },
    ensures
        rc_p == rc_i,
        rc_p == TPM_SUCCESS ==> perms == attributes,
        rc_p != TPM_SUCCESS ==> perms == old_perms,
{
    let r1 = choose|reply: (u32, Vec<u8>)|
        {
            &&& #[trigger] exchanged(xmit, space_info_request(index), 2048, reply)
            &&& rc_p == space_info_code(index, reply)
            &&& rc_p == TPM_SUCCESS ==> perms == be32_at(reply.1@, permission_at(reply.1@) + 2)
        };
    let r2 = choose|reply: (u32, Vec<u8>)|
        {
            &&& #[trigger] exchanged(xmit, space_info_request(index), 2048, reply)
            &&& rc_i == space_info_code(index, reply)
            &&& rc_i == TPM_SUCCESS ==> (policy matches Some(p) && space_info_reported(
                reply.1@,
                attributes,
                size,
                p,
            ))
        };
    lemma_exchanged_unique(xmit, space_info_request(index), 2048, r1, r2);
}

/// Reads the permissions of NV space `index` (see `TlclGetSpaceInfo`).
pub fn TlclGetPermissions<X: Fn(&[u8], usize) -> (u32, Vec<u8>)>(
    xmit: &X,
    index: u32,
    permissions: &mut u32,
) -> (rc: u32)
    requires
        transport_ready(*xmit),
    ensures
        exists|reply: (u32, Vec<u8>)|
            {
                &&& #[trigger] exchanged(*xmit, space_info_request(index), 2048, reply)
                &&& rc == space_info_code(index, reply)
                &&& rc == TPM_SUCCESS ==> *final(permissions) == be32_at(
                    reply.1@,
                    permission_at(reply.1@) + 2,
                )
            },
        rc != TPM_SUCCESS ==> *final(permissions) == *old(permissions),
{
    let mut dummy_size: u32 = 0;
    let mut dummy_policy: Option<TPM_NV_AUTH_POLICY> = Some(zero_policy());
    let mut dummy_policy_size: u32 = TPM_NV_AUTH_POLICY_SIZE as u32;
    TlclGetSpaceInfo(
        xmit,
        index,
        permissions,
        &mut dummy_size,
        &mut dummy_policy,
        &mut dummy_policy_size,
    )
}

} // verus!
