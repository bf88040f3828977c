//! NV space definition and removal with hand-built TPM 2.0 commands sent
//! through the raw exchange.
use vstd::prelude::*;

use crate::tlcl::bytes::{be16_bytes, be32_at, be32_bytes, lemma_overwrite_append, overwrite};
use crate::tlcl::commands::tpm20::define::TlclGetPermissions;
use crate::tlcl::marshal::{
    marshal_session_header, marshal_tpm_header, marshal_u16, marshal_u32, session_bytes,
    tpm_header_bytes,
};
use crate::tlcl::structs::{Tpm2SessionHeader, Tpm2TpmHeader};
use crate::tlcl::tpm20::constants::{
    HR_NV_INDEX, TPM2_NV_DefineSpace, TPM2_NV_UndefineSpace, TPMA_NV_AUTHREAD, TPMA_NV_AUTHWRITE,
    TPMA_NV_MASK_READ, TPMA_NV_MASK_WRITE, TPMA_NV_PLATFORMCREATE, TPMA_NV_PPREAD, TPMA_NV_PPWRITE,
    TPM_ALG_SHA256, TPM_CMD_HEADER_SIZE, TPM_RH_OWNER, TPM_RH_PLATFORM, TPM_RS_PW, TPM_ST_SESSIONS,
};
use crate::tlcl::unmarshal::unmarshal_response_code;
use crate::tlcl::{exchange_rc, exchange_request, exchanged, tpm_exchange, transport_ready};

verus! {

/// The hierarchy that authorises a definition: the platform for
/// platform-created spaces, else the owner.
pub open spec fn auth_handle_for(perm: u32) -> u32 {
    if perm & TPMA_NV_PLATFORMCREATE != 0 {
        TPM_RH_PLATFORM
    } else {
        TPM_RH_OWNER
    }
}

fn define_space_auth(perm: u32) -> (h: u32)
    ensures
        h == auth_handle_for(perm),
{
    if perm & TPMA_NV_PLATFORMCREATE != 0 {
        TPM_RH_PLATFORM
    } else {
        TPM_RH_OWNER
    }
}

/// The empty password session as these commands send it.
pub open spec fn password_session() -> Tpm2SessionHeader {
    Tpm2SessionHeader {
        session_handle: TPM_RS_PW,
        nonce_size: 0,
        nonce: 0,
        session_attrs: 0,
        auth_size: 0,
        auth: 0,
    }
}

/// The parameters of NV_DefineSpace: the authorising hierarchy, the
/// password session, the authorisation value with its size, and the
/// size-prefixed public area (index, SHA-256, attributes, an empty policy
/// and the data size).
pub open spec fn define_space_params(nv_index: u32, perm: u32, size: u16, auth: Seq<u8>) -> Seq<u8> {
    be32_bytes(auth_handle_for(perm)) + session_bytes(password_session()) + be16_bytes(
        auth.len() as u16,
    ) + auth + be16_bytes(14) + be32_bytes(nv_index) + be16_bytes(TPM_ALG_SHA256) + be32_bytes(perm)
        + be16_bytes(0) + be16_bytes(size)
}

/// A complete hand-built command: a header with the session tag that
/// announces the whole length, then `params`.
pub open spec fn session_command(code: u32, params: Seq<u8>) -> Seq<u8> {
    tpm_header_bytes(
        Tpm2TpmHeader { tpm_tag: TPM_ST_SESSIONS, tpm_size: (10 + params.len()) as u32, tpm_code: code },
    ) + params
}

/// The NV_DefineSpace command.
pub open spec fn define_space_command(nv_index: u32, perm: u32, size: u16, auth: Seq<u8>) -> Seq<u8> {
    session_command(TPM2_NV_DefineSpace, define_space_params(nv_index, perm, size, auth))
}

/// The parameters of NV_UndefineSpace: the authorising hierarchy, the
/// index and the password session.
pub open spec fn undefine_space_params(nv_index: u32, use_platform_auth: bool) -> Seq<u8> {
    be32_bytes(if use_platform_auth { TPM_RH_PLATFORM } else { TPM_RH_OWNER }) + be32_bytes(nv_index)
        + session_bytes(password_session())
}

/// The NV_UndefineSpace command.
pub open spec fn undefine_space_command(nv_index: u32, use_platform_auth: bool) -> Seq<u8> {
    session_command(TPM2_NV_UndefineSpace, undefine_space_params(nv_index, use_platform_auth))
}

proof fn lemma_header_before_params(b: Seq<u8>, h: Seq<u8>, p: Seq<u8>)
    requires
        h.len() == 10,
        10 + p.len() <= b.len(),
    ensures
        overwrite(overwrite(b, 10, p), 0, h) == overwrite(b, 0, h + p),
{
    assert(overwrite(overwrite(b, 10, p), 0, h) =~= overwrite(b, 0, h + p));
}

/// A hand-built command announces its own length, so the exchange sends
/// exactly the command.
pub proof fn lemma_session_command_size(code: u32, params: Seq<u8>, b: Seq<u8>)
    requires
        10 + params.len() <= b.len(),
        10 + params.len() <= u32::MAX,
    ensures
        be32_at(overwrite(b, 0, session_command(code, params)), 2) == 10 + params.len(),
        exchange_request(overwrite(b, 0, session_command(code, params))) == session_command(code, params),
{
    let c = session_command(code, params);
    let w = overwrite(b, 0, c);
    let n = (10 + params.len()) as u32;
    assert(w.subrange(2, 6) =~= be32_bytes(n));
    assert(be32_at(w, 2) == be32_at(be32_bytes(n), 0));
    assert(be32_at(w, 2) == n);
    assert(exchange_request(w) =~= c);
}

fn serialize_nv_define_space(nv_index: u32, perm: u32, size: u16, auth_value: &[u8], buf: &mut [u8; 512])
    requires
        auth_value@.len() <= 467,
    ensures
        final(buf)@ == overwrite(old(buf)@, 0, define_space_command(nv_index, perm, size, auth_value@)),
{
    let ghost b0 = buf@;
    let mut offset: usize = TPM_CMD_HEADER_SIZE;
    let mut max_size: usize = 512 - TPM_CMD_HEADER_SIZE;
    let mut remaining: usize = max_size;
    let ghost mut written: Seq<u8> = Seq::empty();

    let auth = define_space_auth(perm);
    marshal_u32(auth, &mut offset, buf, &mut remaining);
    proof {
        assert(written + be32_bytes(auth) =~= be32_bytes(auth));
        written = be32_bytes(auth);
        assert(buf@ =~= overwrite(b0, 10, written));
    }
    let ghost st = buf@;
    marshal_session_header(
        Tpm2SessionHeader {
            session_handle: TPM_RS_PW,
            nonce_size: 0,
            nonce: 0,
            session_attrs: 0,
            auth_size: 0,
            auth: 0,
        },
        buf,
        &mut remaining,
        &mut offset,
    );
    proof {
        lemma_overwrite_append(b0, 10, written, session_bytes(password_session()));
        written = written + session_bytes(password_session());
    }
    let n = auth_value.len();
    marshal_u16(n as u16, &mut offset, buf, &mut remaining);
    proof {
        lemma_overwrite_append(b0, 10, written, be16_bytes(n as u16));
        written = written + be16_bytes(n as u16);
    }
    if n > 0 {
        let start = offset;
        let ghost before = buf@;
        let mut i: usize = 0;
        while i < n
            invariant
                i <= n,
                n == auth_value@.len(),
                start + n <= 512,
                forall|j: int|
                    0 <= j < 512 ==> #[trigger] buf@[j] == (if start <= j < start + i {
                        auth_value@[j - start]
                    } else {
                        before[j]
                    }),
            decreases n - i,
        {
            buf[start + i] = auth_value[i];
            i = i + 1;
        }
        assert(buf@ =~= overwrite(before, start as int, auth_value@));
        offset = offset + n;
        remaining = remaining - n;
    } else {
        assert(buf@ =~= overwrite(buf@, offset as int, auth_value@));
    }
    proof {
        lemma_overwrite_append(b0, 10, written, auth_value@);
        written = written + auth_value@;
    }
    let nv_public_size: u16 = 4 + 2 + 4 + 2 + 2;
    marshal_u16(nv_public_size, &mut offset, buf, &mut remaining);
    proof {
        lemma_overwrite_append(b0, 10, written, be16_bytes(14));
        written = written + be16_bytes(14);
    }
    marshal_u32(nv_index, &mut offset, buf, &mut remaining);
    proof {
        lemma_overwrite_append(b0, 10, written, be32_bytes(nv_index));
        written = written + be32_bytes(nv_index);
    }
    marshal_u16(TPM_ALG_SHA256, &mut offset, buf, &mut remaining);
    proof {
        lemma_overwrite_append(b0, 10, written, be16_bytes(TPM_ALG_SHA256));
        written = written + be16_bytes(TPM_ALG_SHA256);
    }
    marshal_u32(perm, &mut offset, buf, &mut remaining);
    proof {
        lemma_overwrite_append(b0, 10, written, be32_bytes(perm));
        written = written + be32_bytes(perm);
    }
    marshal_u16(0, &mut offset, buf, &mut remaining);
    proof {
        lemma_overwrite_append(b0, 10, written, be16_bytes(0));
        written = written + be16_bytes(0);
    }
    marshal_u16(size, &mut offset, buf, &mut remaining);
    proof {
        lemma_overwrite_append(b0, 10, written, be16_bytes(size));
        written = written + be16_bytes(size);
        assert(written =~= define_space_params(nv_index, perm, size, auth_value@));
    }
    let total_size = (max_size - remaining + TPM_CMD_HEADER_SIZE) as u32;
    let ghost params = written;
    let ghost mid = buf@;
    let mut header_offset: usize = 0;
    marshal_tpm_header(
        Tpm2TpmHeader { tpm_tag: TPM_ST_SESSIONS, tpm_size: total_size, tpm_code: TPM2_NV_DefineSpace },
        buf,
        &mut max_size,
        &mut header_offset,
    );
    proof {
        let h = tpm_header_bytes(
            Tpm2TpmHeader { tpm_tag: TPM_ST_SESSIONS, tpm_size: total_size, tpm_code: TPM2_NV_DefineSpace },
        );
        lemma_header_before_params(b0, h, params);
        assert(h + params =~= define_space_command(nv_index, perm, size, auth_value@));
    }
}

fn serialize_nv_undefine_space(nv_index: u32, use_platform_auth: bool, buf: &mut [u8; 512])
    ensures
        final(buf)@ == overwrite(old(buf)@, 0, undefine_space_command(nv_index, use_platform_auth)),
{
    let ghost b0 = buf@;
    let mut offset: usize = TPM_CMD_HEADER_SIZE;
    let mut max_size: usize = 512 - TPM_CMD_HEADER_SIZE;
    let mut remaining: usize = max_size;
    let auth_handle = if use_platform_auth {
        TPM_RH_PLATFORM
    } else {
        TPM_RH_OWNER
    };
    marshal_u32(auth_handle, &mut offset, buf, &mut remaining);
    marshal_u32(nv_index, &mut offset, buf, &mut remaining);
    proof {
        lemma_overwrite_append(b0, 10, be32_bytes(auth_handle), be32_bytes(nv_index));
    }
    marshal_session_header(
        Tpm2SessionHeader {
            session_handle: TPM_RS_PW,
            nonce_size: 0,
            nonce: 0,
            session_attrs: 0,
            auth_size: 0,
            auth: 0,
        },
        buf,
        &mut remaining,
        &mut offset,
    );
    let ghost params = undefine_space_params(nv_index, use_platform_auth);
    proof {
        lemma_overwrite_append(
            b0,
            10,
            be32_bytes(auth_handle) + be32_bytes(nv_index),
            session_bytes(password_session()),
        );
        assert(be32_bytes(auth_handle) + be32_bytes(nv_index) + session_bytes(password_session())
            =~= params);
    }
    let total_size = (max_size - remaining + TPM_CMD_HEADER_SIZE) as u32;
    let mut header_offset: usize = 0;
    marshal_tpm_header(
        Tpm2TpmHeader { tpm_tag: TPM_ST_SESSIONS, tpm_size: total_size, tpm_code: TPM2_NV_UndefineSpace },
        buf,
        &mut max_size,
        &mut header_offset,
    );
    proof {
        let h = tpm_header_bytes(
            Tpm2TpmHeader { tpm_tag: TPM_ST_SESSIONS, tpm_size: total_size, tpm_code: TPM2_NV_UndefineSpace },
        );
        lemma_header_before_params(b0, h, params);
        assert(h + params =~= undefine_space_command(nv_index, use_platform_auth));
    }
}

/// The attributes a definition asks for: the given ones, with
/// authorisation (owner spaces) or physical-presence (platform spaces)
/// reading and writing added when no read or no write right is given.
pub open spec fn define_space_perm(perm: u32) -> u32 {
    let w = if perm & TPMA_NV_MASK_WRITE == 0 {
        perm | (if perm & TPMA_NV_PLATFORMCREATE == 0 { TPMA_NV_AUTHWRITE } else { TPMA_NV_PPWRITE })
    } else {
        perm
    };
    if w & TPMA_NV_MASK_READ == 0 {
        w | (if perm & TPMA_NV_PLATFORMCREATE == 0 { TPMA_NV_AUTHREAD } else { TPMA_NV_PPREAD })
    } else {
        w
    }
}

/// Every defined space can be read and written by someone: the attributes
/// sent always grant some read right and some write right, and keep every
/// attribute asked for.
pub proof fn lemma_define_space_perm_grants_access(perm: u32)
    ensures
        define_space_perm(perm) & TPMA_NV_MASK_WRITE != 0,
        define_space_perm(perm) & TPMA_NV_MASK_READ != 0,
        define_space_perm(perm) & perm == perm,
{
    assert(TPMA_NV_MASK_WRITE == 0x0000000f) by (bit_vector);
    assert(TPMA_NV_MASK_READ == 0x000f0000) by (bit_vector);
    assert(TPMA_NV_PLATFORMCREATE == 0x40000000) by (bit_vector);
    assert(TPMA_NV_AUTHWRITE == 4 && TPMA_NV_PPWRITE == 1) by (bit_vector);
    assert(TPMA_NV_AUTHREAD == 0x40000 && TPMA_NV_PPREAD == 0x10000) by (bit_vector);
    let p = perm;
    assert({
        let w = if p & 0xf == 0 {
            p | (if p & 0x40000000 == 0 { 4u32 } else { 1u32 })
        } else {
            p
        };
        let r = if w & 0xf0000 == 0 {
            w | (if p & 0x40000000 == 0 { 0x40000u32 } else { 0x10000u32 })
        } else {
            w
        };
        r & 0xf != 0 && r & 0xf0000 != 0 && r & p == p
    }) by (bit_vector);
}

/// Defines NV space `index` (under the NV index range) with attributes
/// `perm`, completed as `define_space_perm` says, and `size` bytes (taken
/// modulo 2^16), by sending a hand-built NV_DefineSpace.  Returns the TPM's
/// response code, or all ones when the exchange failed.  No owner
/// authorisation is sent, and an authorisation policy is ignored.
pub fn TlclDefineSpaceEx<X: Fn(&[u8], usize) -> (u32, Vec<u8>)>(
    xmit: &X,
    _owner_auth: Option<&[u8]>,
    index: u32,
    perm: u32,
    size: u32,
    _auth_policy: Option<&[u8]>,
) -> (rc: u32)
    requires
        transport_ready(*xmit),
        HR_NV_INDEX + index <= u32::MAX,
    ensures
        exists|reply: (u32, Vec<u8>)|
            #[trigger] exchanged(
                *xmit,
                define_space_command(
                    (HR_NV_INDEX + index) as u32,
                    define_space_perm(perm),
                    size as u16,
                    Seq::empty(),
                ),
                4096,
                reply,
            ) && rc == exchange_rc(reply),
{
    let mut perm = perm;
    let ghost asked = perm;
    if perm & TPMA_NV_PLATFORMCREATE == 0 {
        if perm & TPMA_NV_MASK_WRITE == 0 {
            perm = perm | TPMA_NV_AUTHWRITE;
        }
        if perm & TPMA_NV_MASK_READ == 0 {
            perm = perm | TPMA_NV_AUTHREAD;
        }
    } else {
        if perm & TPMA_NV_MASK_WRITE == 0 {
            perm = perm | TPMA_NV_PPWRITE;
        }
        if perm & TPMA_NV_MASK_READ == 0 {
            perm = perm | TPMA_NV_PPREAD;
        }
    }
    proof {
        assert(TPMA_NV_AUTHWRITE == 4 && TPMA_NV_PPWRITE == 1) by (bit_vector);
        assert(TPMA_NV_PLATFORMCREATE == 0x40000000) by (bit_vector);
        if asked & TPMA_NV_MASK_WRITE == 0 {
            let a = asked;
            assert((a | 4u32) & 0x40000000 == a & 0x40000000) by (bit_vector);
            assert((a | 1u32) & 0x40000000 == a & 0x40000000) by (bit_vector);
        }
        assert(perm == define_space_perm(asked));
    }
    let nv_index = HR_NV_INDEX + index;
    let mut cmd_buf: [u8; 512] = [0; 512];
    let mut resp_buf: [u8; 4096] = [0; 4096];
    let empty: [u8; 0] = [];
    let ghost zeros512 = cmd_buf@;
    serialize_nv_define_space(nv_index, perm, size as u16, &empty, &mut cmd_buf);
    proof {
        assert(empty@ =~= Seq::<u8>::empty());
        lemma_session_command_size(
            TPM2_NV_DefineSpace,
            define_space_params(nv_index, perm, size as u16, Seq::empty()),
            zeros512,
        );
    }
    let ghost zeros = resp_buf@;
    assert(zeros =~= Seq::new(4096, |i: int| 0u8));
    match tpm_exchange(xmit, &cmd_buf, &mut resp_buf) {
        Ok(_) => unmarshal_response_code(&resp_buf),
        Err(_) => 0xFFFFFFFF,
    }
}

/// Defines NV space `index` with attributes `perm` and `size` bytes (see
/// `TlclDefineSpaceEx`).
pub fn TlclDefineSpace<X: Fn(&[u8], usize) -> (u32, Vec<u8>)>(
    xmit: &X,
    index: u32,
    perm: u32,
    size: u32,
) -> (rc: u32)
    requires
        transport_ready(*xmit),
        HR_NV_INDEX + index <= u32::MAX,
    ensures
        exists|reply: (u32, Vec<u8>)|
            #[trigger] exchanged(
                *xmit,
                define_space_command(
                    (HR_NV_INDEX + index) as u32,
                    define_space_perm(perm),
                    size as u16,
                    Seq::empty(),
                ),
                4096,
                reply,
            ) && rc == exchange_rc(reply),
{
    TlclDefineSpaceEx(xmit, None, index, perm, size, None)
}

/// Removes NV space `index` by sending a hand-built NV_UndefineSpace,
/// authorised by the platform when the space's attributes, as
/// `TlclGetPermissions` reads them, say it was platform-created, else by
/// the owner.  This layer cannot read the attributes (NV_ReadPublic is not
/// built), so they count as zero and the owner authorises.  Returns the
/// TPM's response code, or all ones when the exchange failed.
pub fn TlclUndefineSpaceEx<X: Fn(&[u8], usize) -> (u32, Vec<u8>)>(
    xmit: &X,
    _owner_auth: Option<&[u8]>,
    index: u32,
) -> (rc: u32)
    requires
        transport_ready(*xmit),
        HR_NV_INDEX + index <= u32::MAX,
    ensures
        exists|reply: (u32, Vec<u8>)|
            #[trigger] exchanged(
                *xmit,
                undefine_space_command((HR_NV_INDEX + index) as u32, false),
                4096,
                reply,
            ) && rc == exchange_rc(reply),
{
    let nv_index = HR_NV_INDEX + index;
    let mut permissions: u32 = 0;
    let _read = TlclGetPermissions(xmit, index, &mut permissions);
    let use_platform_auth = permissions & TPMA_NV_PLATFORMCREATE != 0;
    proof {
        assert(0u32 & TPMA_NV_PLATFORMCREATE == 0) by (bit_vector);
    }
    let mut cmd_buf: [u8; 512] = [0; 512];
    let mut resp_buf: [u8; 4096] = [0; 4096];
    let ghost zeros512 = cmd_buf@;
    serialize_nv_undefine_space(nv_index, use_platform_auth, &mut cmd_buf);
    proof {
        lemma_session_command_size(
            TPM2_NV_UndefineSpace,
            undefine_space_params(nv_index, use_platform_auth),
            zeros512,
        );
    }
    let ghost zeros = resp_buf@;
    assert(zeros =~= Seq::new(4096, |i: int| 0u8));
    match tpm_exchange(xmit, &cmd_buf, &mut resp_buf) {
        Ok(_) => unmarshal_response_code(&resp_buf),
        Err(_) => 0xFFFFFFFF,
    }
}

/// Removes NV space `index` (see `TlclUndefineSpaceEx`).
pub fn TlclUndefineSpace<X: Fn(&[u8], usize) -> (u32, Vec<u8>)>(xmit: &X, index: u32) -> (rc: u32)
    requires
        transport_ready(*xmit),
        HR_NV_INDEX + index <= u32::MAX,
    ensures
        exists|reply: (u32, Vec<u8>)|
            #[trigger] exchanged(
                *xmit,
                undefine_space_command((HR_NV_INDEX + index) as u32, false),
                4096,
                reply,
            ) && rc == exchange_rc(reply),
{
    TlclUndefineSpaceEx(xmit, None, index)
}

} // verus!
