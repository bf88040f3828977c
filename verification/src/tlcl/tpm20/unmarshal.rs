//! Parsing of TPM 2.0 responses.
//!
//! The readers share the TPM 1.2 convention: `size` is what is left of the
//! response after `*at`; a read past it sets it to -1 and yields zero, and
//! -1 stays -1 through every later read.
use vstd::prelude::*;

pub use crate::tlcl::bytes::{read_be16, read_be32};
pub use crate::tlcl::tpm12::unmarshal::{unmarshal_u16, unmarshal_u32};
use crate::tlcl::bytes::{be16_at, be16_bytes, be32_at, lemma_be16_roundtrip};
use crate::tlcl::tpm12::marshal::cursor_ok;
use crate::tlcl::tpm20::constants::{
    TPM2B, TPM2_Clear, TPM2_NV_DefineSpace, TPM2_NV_Read, TPM2_NV_ReadPublic,
    TPM2_NV_UndefineSpace, TPM2_NV_Write, TPMS_NV_PUBLIC, TPM_ST_NO_SESSIONS, TPM_ST_SESSIONS,
    nv_read_public_response, nv_read_response, tpm2_response, tpm2_response_body,
};

verus! {

/// Reads one byte at the cursor.
pub fn unmarshal_u8(buffer: &[u8], at: &mut usize, buffer_space: &mut i32) -> (v: u8)
    requires
        cursor_ok(buffer.len() as int, *old(at), *old(buffer_space)),
    ensures
        *old(buffer_space) < 1 ==> v == 0 && *final(buffer_space) == -1 && *final(at) == *old(at),
        *old(buffer_space) >= 1 ==> v == buffer@[*old(at) as int] && *final(buffer_space)
            == *old(buffer_space) - 1 && *final(at) == *old(at) + 1,
{
    if *buffer_space < 1 {
        *buffer_space = -1;
        return 0;
    }
    let value = buffer[*at];
    *at = *at + 1;
    *buffer_space = *buffer_space - 1;
    value
}

/// The bytes of the size-prefixed string at `at`, when its size and its
/// bytes fit in the `space` that is left.
pub open spec fn tpm2b_at(s: Seq<u8>, at: int, space: int) -> Option<Seq<u8>> {
    if space >= 2 && be16_at(s, at) <= space - 2 {
        Some(s.subrange(at + 2, at + 2 + be16_at(s, at)))
    } else {
        None
    }
}

/// A size-prefixed string reads back as written: the bytes `b` after
/// their 16-bit size, followed by anything, give `b` when they fit.
pub proof fn lemma_tpm2b_roundtrip(b: Seq<u8>, rest: Seq<u8>, space: int)
    requires
        b.len() <= u16::MAX,
        2 + b.len() <= space,
    ensures
        tpm2b_at(be16_bytes(b.len() as u16) + b + rest, 0, space) == Some(b),
{
    let s = be16_bytes(b.len() as u16) + b + rest;
    assert(s.subrange(0, 2) =~= be16_bytes(b.len() as u16));
    lemma_be16_roundtrip(b.len() as u16);
    assert(be16_at(s, 0) == be16_at(be16_bytes(b.len() as u16), 0));
    assert(s.subrange(2, 2 + b.len() as int) =~= b);
}

/// Reads a size-prefixed byte string.  When it does not fit, `tpm2b` is
/// left empty and the room becomes -1.
pub fn unmarshal_TPM2B(buffer: &[u8], at: &mut usize, size: &mut i32, tpm2b: &mut TPM2B)
    requires
        cursor_ok(buffer.len() as int, *old(at), *old(size)),
    ensures
        cursor_ok(buffer.len() as int, *final(at), *final(size)),
        tpm2b_at(buffer@, *old(at) as int, *old(size) as int) is None ==> {
            &&& *final(size) == -1
            &&& final(tpm2b).size == 0
            &&& final(tpm2b).buffer@ == Seq::<u8>::empty()
            &&& *final(at) == *old(at) + (if *old(size) >= 2 { 2int } else { 0int })
        },
        tpm2b_at(buffer@, *old(at) as int, *old(size) as int) matches Some(b) ==> {
            &&& *final(size) == *old(size) - 2 - b.len()
            &&& *final(at) == *old(at) + 2 + b.len()
            &&& final(tpm2b).size == b.len()
            &&& final(tpm2b).buffer@ == b
        },
{
    tpm2b.size = unmarshal_u16(buffer, at, size);
    if tpm2b.size as i32 > *size {
        tpm2b.buffer = Vec::new();
        tpm2b.size = 0;
        *size = -1;
        return ;
    }
    let n = tpm2b.size as usize;
    tpm2b.buffer = vstd::slice::slice_to_vec(vstd::slice::slice_subrange(buffer, *at, *at + n));
    *at = *at + n;
    *size = *size - n as i32;
}

/// Skips the authorisation area that closes a response: the cursor moves
/// past whatever is left, and nothing is left after.  `cmd_name` names the
/// command whose response this is.
pub fn unmarshal_authorization_section(buffer: &[u8], at: &mut usize, size: &mut i32, cmd_name: &str)
    requires
        cursor_ok(buffer.len() as int, *old(at), *old(size)),
    ensures
        *final(size) == 0,
        *old(size) >= 0 ==> *final(at) == *old(at) + *old(size),
        *old(size) < 0 ==> *final(at) == *old(at),
{
    if *size >= 0 {
        *at = *at + *size as usize;
    }
    *size = 0;
}

/// What is left after an NV_Read result at `at` with `space` bytes: -1 when
/// its parameter size or data do not fit, 0 when the parameter size
/// matches the data (the rest is the authorisation area), else what
/// follows the data.
pub open spec fn nv_read_space_after(s: Seq<u8>, at: int, space: int) -> int {
    if space < 4 {
        -1
    } else {
        match tpm2b_at(s, at + 4, space - 4) {
            None => -1,
            Some(b) => if be32_at(s, at) == b.len() + 2 {
                0
            } else {
                space - 6 - b.len()
            },
        }
    }
}

/// Reads an NV_Read result: the parameter size, then the data.
pub fn unmarshal_nv_read(buffer: &[u8], at: &mut usize, size: &mut i32, nvr: &mut nv_read_response)
    requires
        cursor_ok(buffer.len() as int, *old(at), *old(size)),
    ensures
        *final(size) == nv_read_space_after(buffer@, *old(at) as int, *old(size) as int),
        final(nvr).params_size == (if *old(size) >= 4 {
            be32_at(buffer@, *old(at) as int)
        } else {
            0u32
        }),
        *old(size) >= 4 && tpm2b_at(buffer@, *old(at) + 4, *old(size) - 4) is Some ==> {
            let b = tpm2b_at(buffer@, *old(at) + 4, *old(size) - 4)->0;
            final(nvr).buffer.size == b.len() && final(nvr).buffer.buffer@ == b
        },
        !(*old(size) >= 4 && tpm2b_at(buffer@, *old(at) + 4, *old(size) - 4) is Some) ==> {
            final(nvr).buffer.size == 0 && final(nvr).buffer.buffer@ == Seq::<u8>::empty()
        },
{
    nvr.params_size = unmarshal_u32(buffer, at, size);
    unmarshal_TPM2B(buffer, at, size, &mut nvr.buffer);
    if nvr.params_size != nvr.buffer.size as u32 + 2 {
        return ;
    }
    if *size < 0 {
        return ;
    }
    unmarshal_authorization_section(buffer, at, size, "NV_Read");
}

/// Skips what an NV_Write response carries: its authorisation area.
pub fn unmarshal_nv_write(buffer: &[u8], at: &mut usize, size: &mut i32)
    requires
        cursor_ok(buffer.len() as int, *old(at), *old(size)),
    ensures
        *final(size) == 0,
        *old(size) >= 0 ==> *final(at) == *old(at) + *old(size),
{
    unmarshal_authorization_section(buffer, at, size, "NV_Write");
}

/// The 32-bit field at offset `off` of a structure of `len` bytes that
/// starts at `at`, read when it fits, else 0.
pub open spec fn field32(s: Seq<u8>, at: int, off: int, len: int) -> u32 {
    if len >= off + 4 {
        be32_at(s, at + off)
    } else {
        0
    }
}

/// As `field32`, for a 16-bit field.
pub open spec fn field16(s: Seq<u8>, at: int, off: int, len: int) -> u16 {
    if len >= off + 2 {
        be16_at(s, at + off)
    } else {
        0
    }
}

/// The size that an NV public area at `at` announces.
pub open spec fn nv_public_len(s: Seq<u8>, at: int) -> int {
    be16_at(s, at) as int
}

/// The announced NV public area fits in `space`.
pub open spec fn nv_public_fits(s: Seq<u8>, at: int, space: int) -> bool {
    space >= 2 && nv_public_len(s, at) <= space - 2
}

/// The authorisation policy inside an NV public area whose fields, `len`
/// bytes in all, start at `inner`.
pub open spec fn nv_public_policy(s: Seq<u8>, inner: int, len: int) -> Option<Seq<u8>> {
    tpm2b_at(s, inner + 10, len - 10)
}

/// The data size inside the NV public area at `at` of `len` bytes: read
/// after the policy when both fit, else 0.
pub open spec fn nv_public_data_size(s: Seq<u8>, at: int, len: int) -> u16 {
    match nv_public_policy(s, at + 2, len) {
        Some(p) => if len - 12 - p.len() >= 2 {
            be16_at(s, at + 14 + p.len())
        } else {
            0
        },
        None => 0,
    }
}

/// The NV public area at `at` fits in `space` and its fields fill exactly
/// its announced size.
pub open spec fn nv_public_ok(s: Seq<u8>, at: int, space: int) -> bool {
    let len = nv_public_len(s, at);
    &&& nv_public_fits(s, at, space)
    &&& nv_public_policy(s, at + 2, len) matches Some(p) && len == 14 + p.len()
}

/// Reads an NV public area: its size, the index, name algorithm,
/// attributes, authorisation policy and data size.  The room becomes -1
/// when the area does not fit or its fields do not fill it exactly; the
/// fields read are stored whenever the area fits.
pub fn unmarshal_TPMS_NV_PUBLIC(
    buffer: &[u8],
    at: &mut usize,
    size: &mut i32,
    pub_data: &mut TPMS_NV_PUBLIC,
)
    requires
        cursor_ok(buffer.len() as int, *old(at), *old(size)),
    ensures
        cursor_ok(buffer.len() as int, *final(at), *final(size)),
        !nv_public_fits(buffer@, *old(at) as int, *old(size) as int) ==> *final(size) == -1
            && *final(pub_data) == *old(pub_data),
        nv_public_fits(buffer@, *old(at) as int, *old(size) as int) ==> {
            let s = buffer@;
            let a = *old(at) as int;
            let len = nv_public_len(s, a);
            &&& final(pub_data).nvIndex == field32(s, a + 2, 0, len)
            &&& final(pub_data).nameAlg == field16(s, a + 2, 4, len)
            &&& final(pub_data).attributes == field32(s, a + 2, 6, len)
            &&& nv_public_policy(s, a + 2, len) is Some ==> final(pub_data).authPolicy.size
                == nv_public_policy(s, a + 2, len)->0.len() && final(pub_data).authPolicy.buffer@
                == nv_public_policy(s, a + 2, len)->0
            &&& nv_public_policy(s, a + 2, len) is None ==> final(pub_data).authPolicy.size == 0
                && final(pub_data).authPolicy.buffer@ == Seq::<u8>::empty()
            &&& final(pub_data).dataSize == nv_public_data_size(s, a, len)
            &&& nv_public_ok(s, a, *old(size) as int) ==> *final(size) == *old(size) - 2 - len
                && *final(at) == *old(at) + 2 + len
            &&& !nv_public_ok(s, a, *old(size) as int) ==> *final(size) == -1
        },
{
    let ghost s = buffer@;
    let ghost a = *at as int;
    let mut tpm2b_size = unmarshal_u16(buffer, at, size) as i32;
    if tpm2b_size > *size {
        *size = -1;
        return ;
    }
    let ghost len = tpm2b_size as int;
    *size = *size - tpm2b_size;
    pub_data.nvIndex = unmarshal_u32(buffer, at, &mut tpm2b_size);
    pub_data.nameAlg = unmarshal_u16(buffer, at, &mut tpm2b_size);
    pub_data.attributes = unmarshal_u32(buffer, at, &mut tpm2b_size);
    let ghost before_policy = (*at, tpm2b_size);
    proof {
        if len >= 10 {
            assert(before_policy.0 == a + 12 && before_policy.1 == len - 10);
        } else {
            assert(before_policy.1 == -1);
        }
    }
    unmarshal_TPM2B(buffer, at, &mut tpm2b_size, &mut pub_data.authPolicy);
    pub_data.dataSize = unmarshal_u16(buffer, at, &mut tpm2b_size);
    if tpm2b_size != 0 {
        *size = -1;
    }
}

/// The NV_ReadPublic result at `at` in `space` bytes is well formed: a
/// public area (see `nv_public_ok`), then a name, filling `space` exactly.
pub open spec fn nv_read_public_ok(s: Seq<u8>, at: int, space: int) -> bool {
    let len = nv_public_len(s, at);
    let rest = space - 2 - len;
    &&& nv_public_ok(s, at, space)
    &&& tpm2b_at(s, at + 2 + len, rest) matches Some(name) && rest == 2 + name.len()
}

/// Reads an NV_ReadPublic result into `nv_pub`, which is written only when
/// the result is well formed (see `nv_read_public_ok`); the room is then
/// 0, else -1.
pub fn unmarshal_nv_read_public(
    buffer: &[u8],
    at: &mut usize,
    size: &mut i32,
    nv_pub: &mut nv_read_public_response,
)
    requires
        cursor_ok(buffer.len() as int, *old(at), *old(size)),
    ensures
        nv_read_public_ok(buffer@, *old(at) as int, *old(size) as int) ==> {
            let s = buffer@;
            let a = *old(at) as int;
            let len = nv_public_len(s, a);
            let p = nv_public_policy(s, a + 2, len)->0;
            let name = tpm2b_at(s, a + 2 + len, *old(size) - 2 - len)->0;
            &&& *final(size) == 0
            &&& final(nv_pub).nvPublic.nvIndex == be32_at(s, a + 2)
            &&& final(nv_pub).nvPublic.nameAlg == be16_at(s, a + 6)
            &&& final(nv_pub).nvPublic.attributes == be32_at(s, a + 8)
            &&& final(nv_pub).nvPublic.authPolicy.size == p.len()
            &&& final(nv_pub).nvPublic.authPolicy.buffer@ == p
            &&& final(nv_pub).nvPublic.dataSize == be16_at(s, a + 14 + p.len())
            &&& final(nv_pub).nvName.size == name.len()
            &&& final(nv_pub).nvName.buffer@ == name
        },
        !nv_read_public_ok(buffer@, *old(at) as int, *old(size) as int) ==> *final(size) == -1
            && *final(nv_pub) == *old(nv_pub),
{
    let ghost s = buffer@;
    let ghost a = *at as int;
    let ghost space = *size as int;
    let mut nv_public = TPMS_NV_PUBLIC::zeroed();
    let mut nv_name = TPM2B::empty();
    unmarshal_TPMS_NV_PUBLIC(buffer, at, size, &mut nv_public);
    unmarshal_TPM2B(buffer, at, size, &mut nv_name);
    if *size < 0 {
        return ;
    }
    if *size > 0 {
        *size = -1;
        return ;
    }
    proof {
        let len = nv_public_len(s, a);
        assert(nv_public_ok(s, a, space));
        let p = nv_public_policy(s, a + 2, len)->0;
        assert(len >= 4 + 2 && len >= 6 + 4);
        assert(len - 12 - p.len() >= 2);
    }
    nv_pub.nvPublic = nv_public;
    nv_pub.nvName = nv_name;
}

/// A response of `n` bytes `s` to `command` is well formed: a full header
/// with a TPM 2.0 tag and a size of at least ten, and parameters the
/// command's parser accepts whole (none at all is always accepted).
pub open spec fn tpm2_response_ok(command: u32, s: Seq<u8>, n: int) -> bool {
    &&& n >= 10
    &&& (be16_at(s, 0) == TPM_ST_NO_SESSIONS || be16_at(s, 0) == TPM_ST_SESSIONS)
    &&& be32_at(s, 2) >= 10
    &&& n == 10 || (command == TPM2_NV_Read && nv_read_space_after(s, 10, n - 10) == 0) || (
    command == TPM2_NV_ReadPublic && nv_read_public_ok(s, 10, n - 10)) || command == TPM2_NV_Write
        || command == TPM2_NV_DefineSpace || command == TPM2_NV_UndefineSpace || command
        == TPM2_Clear
}

/// `new` holds the response of `n` bytes `s` to `command` as parsed: the
/// header, and, when parameters follow a valid header, the NV_Read result
/// (whatever could be read of it) or the NV_ReadPublic result (only when
/// well formed, else zero); other bodies are kept.
pub open spec fn tpm2_parsed(command: u32, s: Seq<u8>, n: int, old: tpm2_response, new: tpm2_response) -> bool {
    &&& new.hdr.tpm_tag == be16_at(s, 0)
    &&& new.hdr.tpm_size == be32_at(s, 2)
    &&& new.hdr.tpm_code == be32_at(s, 6)
    &&& if n > 10 && command == TPM2_NV_Read {
        new.body matches tpm2_response_body::Nvr(nvr) && {
            &&& nvr.params_size == (if n >= 14 { be32_at(s, 10) } else { 0u32 })
            &&& n >= 14 && tpm2b_at(s, 14, n - 14) is Some ==> nvr.buffer.size == tpm2b_at(
                s,
                14,
                n - 14,
            )->0.len() && nvr.buffer.buffer@ == tpm2b_at(s, 14, n - 14)->0
            &&& !(tpm2b_at(s, 14, n - 14) is Some && n >= 14) ==> nvr.buffer.size == 0
                && nvr.buffer.buffer@ == Seq::<u8>::empty()
        }
    } else if n > 10 && command == TPM2_NV_ReadPublic {
        new.body matches tpm2_response_body::NvReadPublic(r) && if nv_read_public_ok(s, 10, n - 10) {
            let len = nv_public_len(s, 10);
            let p = nv_public_policy(s, 12, len)->0;
            let name = tpm2b_at(s, 12 + len, n - 12 - len)->0;
            &&& r.nvPublic.nvIndex == be32_at(s, 12)
            &&& r.nvPublic.nameAlg == be16_at(s, 16)
            &&& r.nvPublic.attributes == be32_at(s, 18)
            &&& r.nvPublic.authPolicy.size == p.len() && r.nvPublic.authPolicy.buffer@ == p
            &&& r.nvPublic.dataSize == be16_at(s, 24 + p.len() as int)
            &&& r.nvName.size == name.len() && r.nvName.buffer@ == name
        } else {
            &&& r.nvPublic.nvIndex == 0 && r.nvPublic.nameAlg == 0 && r.nvPublic.attributes == 0
            &&& r.nvPublic.dataSize == 0 && r.nvPublic.authPolicy.size == 0
            &&& r.nvPublic.authPolicy.buffer@ == Seq::<u8>::empty()
            &&& r.nvName.size == 0 && r.nvName.buffer@ == Seq::<u8>::empty()
        }
    } else {
        new.body == old.body
    }
}

/// Parses the first `cr_size` bytes of `response_body` as the response to
/// `command` into `response`; returns 0 when it is well formed (see
/// `tpm2_response_ok`), else -1.
pub fn tpm_unmarshal_response(
    command: u32,
    response_body: &[u8],
    cr_size: i32,
    response: &mut tpm2_response,
) -> (r: i32)
    requires
        cr_size <= response_body@.len(),
    ensures
        r == 0 || r == -1,
        (r == 0) == tpm2_response_ok(command, response_body@, cr_size as int),
        cr_size < 10 ==> *final(response) == *old(response),
        cr_size >= 10 && (be16_at(response_body@, 0) == TPM_ST_NO_SESSIONS || be16_at(
            response_body@,
            0,
        ) == TPM_ST_SESSIONS) && be32_at(response_body@, 2) >= 10 ==> tpm2_parsed(
            command,
            response_body@,
            cr_size as int,
            *old(response),
            *final(response),
        ),
        cr_size >= 10 ==> {
            &&& final(response).hdr.tpm_tag == be16_at(response_body@, 0)
            &&& final(response).hdr.tpm_size == be32_at(response_body@, 2)
            &&& final(response).hdr.tpm_code == be32_at(response_body@, 6)
        },
{
    let mut cr_size = cr_size;
    let mut at: usize = 0;
    if cr_size < 10 {
        return -1;
    }
    assert(response_body.len() == response_body@.len());
    response.hdr.tpm_tag = unmarshal_u16(response_body, &mut at, &mut cr_size);
    response.hdr.tpm_size = unmarshal_u32(response_body, &mut at, &mut cr_size);
    response.hdr.tpm_code = unmarshal_u32(response_body, &mut at, &mut cr_size);
    if response.hdr.tpm_tag != TPM_ST_NO_SESSIONS && response.hdr.tpm_tag != TPM_ST_SESSIONS {
        return -1;
    }
    if response.hdr.tpm_size < 10 {
        return -1;
    }
    if cr_size == 0 {
        return 0;
    }
    if command == TPM2_NV_Read {
        let mut nvr = nv_read_response { params_size: 0, buffer: TPM2B::empty() };
        unmarshal_nv_read(response_body, &mut at, &mut cr_size, &mut nvr);
        response.body = tpm2_response_body::Nvr(nvr);
    } else if command == TPM2_NV_ReadPublic {
        let mut nv_pub = nv_read_public_response::zeroed();
        unmarshal_nv_read_public(response_body, &mut at, &mut cr_size, &mut nv_pub);
        response.body = tpm2_response_body::NvReadPublic(nv_pub);
    } else if command == TPM2_NV_Write || command == TPM2_NV_DefineSpace || command
        == TPM2_NV_UndefineSpace || command == TPM2_Clear {
        cr_size = 0;
    } else {
        return -1;
    }
    if cr_size != 0 {
        return -1;
    }
    0
}

} // verus!
