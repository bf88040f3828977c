//! Encoding and decoding of the PCR policies attached to TPM 1.2 NV spaces.
use vstd::prelude::*;

pub use crate::tlcl::bytes::{read_be16, read_be32, write_be16, write_be32};
use crate::tlcl::bytes::{be16_at, be16_bytes};
use crate::tlcl::tpm12::constants::{
    TPM_ALL_LOCALITIES, TPM_DIGEST, TPM_LOC_THREE, TPM_NV_AUTH_POLICY, TPM_PCR_INFO_SHORT,
    TPM_PCR_SELECTION,
};

verus! {

/// SHA-1 of an empty PCR selection, the digest a policy over no PCRs expects.
pub const EMPTY_PCR_SELECTION_SHA1: [u8; 20] = [
    0x79, 0xdd, 0xda, 0xfd, 0xc1, 0x97, 0xdc, 0xcc, 0xe9, 0x98, 0x9a, 0xee, 0xf5, 0x52, 0x89, 0xee,
    0x24, 0x96, 0x4c, 0xac,
];

/// The 26 bytes that stand for `p` in a command: the selection size
/// (big-endian), the three selection bytes, the locality and the digest.
pub open spec fn pcr_info_short_bytes(p: TPM_PCR_INFO_SHORT) -> Seq<u8> {
    be16_bytes(p.pcrSelection.sizeOfSelect) + p.pcrSelection.pcrSelect@ + seq![p.localityAtRelease]
        + p.digestAtRelease.digest@
}

/// The 52 bytes that stand for `p` in a command: the read policy, then the
/// write policy.
pub open spec fn nv_auth_policy_bytes(p: TPM_NV_AUTH_POLICY) -> Seq<u8> {
    pcr_info_short_bytes(p.pcr_info_read) + pcr_info_short_bytes(p.pcr_info_write)
}

/// The bytes of `p`, as they are copied into an NV_DefineSpace command.
pub fn encode_nv_auth_policy(p: &TPM_NV_AUTH_POLICY) -> (out: Vec<u8>)
    ensures
        out@ == nv_auth_policy_bytes(*p),
        out@.len() == 52,
{
    let mut out: Vec<u8> = Vec::new();
    encode_pcr_info_short(&p.pcr_info_read, &mut out);
    encode_pcr_info_short(&p.pcr_info_write, &mut out);
    out
}

fn encode_pcr_info_short(p: &TPM_PCR_INFO_SHORT, out: &mut Vec<u8>)
    ensures
        final(out)@ == old(out)@ + pcr_info_short_bytes(*p),
{
    let sel = p.pcrSelection.sizeOfSelect;
    out.push((sel / 256) as u8);
    out.push((sel % 256) as u8);
    out.extend_from_slice(p.pcrSelection.pcrSelect.as_slice());
    out.push(p.localityAtRelease);
    out.extend_from_slice(p.digestAtRelease.digest.as_slice());
    assert(out@ =~= old(out)@ + pcr_info_short_bytes(*p));
}

/// Length of the encoded PCR info that starts at `at` in `s`.
pub open spec fn pcr_info_encoded_len(s: Seq<u8>, at: int) -> int {
    23 + be16_at(s, at)
}

/// The encoded PCR info at `at` fits before `end` and selects at most three bytes.
pub open spec fn pcr_info_decodable(s: Seq<u8>, at: int, end: int) -> bool {
    &&& end - at >= 2
    &&& be16_at(s, at) <= 3
    &&& end - at >= pcr_info_encoded_len(s, at)
}

/// `p` is what the encoded PCR info at `at` in `s` stands for; selection
/// bytes past `sizeOfSelect` are zero.
pub open spec fn pcr_info_decoded(s: Seq<u8>, at: int, p: TPM_PCR_INFO_SHORT) -> bool {
    let n = be16_at(s, at) as int;
    &&& p.pcrSelection.sizeOfSelect == be16_at(s, at)
    &&& forall|i: int| 0 <= i < 3 ==> #[trigger] p.pcrSelection.pcrSelect@[i] == (if i < n {
        s[at + 2 + i]
    } else {
        0u8
    })
    &&& p.localityAtRelease == s[at + 2 + n]
    &&& p.digestAtRelease.digest@ == s.subrange(at + 3 + n, at + 23 + n)
}

/// PCR info with a full three-byte selection reads back from its
/// encoding as itself, whatever follows it.
pub proof fn lemma_pcr_info_roundtrip(p: TPM_PCR_INFO_SHORT, rest: Seq<u8>)
    requires
        p.pcrSelection.sizeOfSelect == 3,
    ensures
        pcr_info_decodable(pcr_info_short_bytes(p) + rest, 0, 26 + rest.len() as int),
        pcr_info_encoded_len(pcr_info_short_bytes(p) + rest, 0) == 26,
        pcr_info_decoded(pcr_info_short_bytes(p) + rest, 0, p),
{
    let s = pcr_info_short_bytes(p) + rest;
    assert(s.subrange(0, 2) =~= be16_bytes(3));
    assert(be16_at(s, 0) == be16_at(be16_bytes(3), 0));
    assert(be16_at(s, 0) == 3);
    assert forall|i: int| 0 <= i < 3 implies #[trigger] p.pcrSelection.pcrSelect@[i] == s[2 + i] by {
    }
    assert(s.subrange(6, 26) =~= p.digestAtRelease.digest@);
}

/// Decodes the PCR info at `*cursor`, which must end before `end`, into
/// `pcr_info`; on success moves the cursor past it and returns true, else
/// (a cursor past `end` included) leaves both unchanged.
pub fn decode_pcr_info(
    response: &[u8],
    cursor: &mut usize,
    end: usize,
    pcr_info: &mut TPM_PCR_INFO_SHORT,
) -> (ok: bool)
    requires
        end <= response@.len(),
    ensures
        ok == pcr_info_decodable(response@, *old(cursor) as int, end as int),
        ok ==> pcr_info_decoded(response@, *old(cursor) as int, *final(pcr_info)),
        ok ==> *final(cursor) == *old(cursor) + pcr_info_encoded_len(response@, *old(cursor) as int),
        !ok ==> *final(cursor) == *old(cursor) && *final(pcr_info) == *old(pcr_info),
{
    if *cursor > end || end - *cursor < 2 {
        return false;
    }
    let size_of_select = read_be16(response, *cursor);
    let encoded_size: usize = 23 + size_of_select as usize;
    if end - *cursor < encoded_size || size_of_select > 3 {
        return false;
    }
    let n = size_of_select as usize;
    let start = *cursor;
    let mut pcr_select = [0u8; 3];
    let mut i: usize = 0;
    while i < n
        invariant
            n <= 3,
            i <= n,
            start + 23 + n <= end,
            end <= response@.len(),
            forall|j: int| 0 <= j < 3 ==> #[trigger] pcr_select@[j] == (if j < i {
                response@[start + 2 + j]
            } else {
                0u8
            }),
        decreases n - i,
    {
        pcr_select[i] = response[start + 2 + i];
        i = i + 1;
    }
    let locality = response[start + 2 + n];
    let mut digest = [0u8; 20];
    let mut k: usize = 0;
    while k < 20
        invariant
            k <= 20,
            start + 23 + n <= end,
            end <= response@.len(),
            forall|j: int| 0 <= j < k ==> #[trigger] digest@[j] == response@[start + 3 + n + j],
        decreases 20 - k,
    {
        digest[k] = response[start + 3 + n + k];
        k = k + 1;
    }
    assert(digest@ =~= response@.subrange(start + 3 + n, start + 23 + n));
    *pcr_info = TPM_PCR_INFO_SHORT {
        pcrSelection: TPM_PCR_SELECTION { sizeOfSelect: size_of_select, pcrSelect: pcr_select },
        localityAtRelease: locality,
        digestAtRelease: TPM_DIGEST { digest },
    };
    *cursor = start + encoded_size;
    true
}

/// The policy that needs no PCR state: all localities but three, and the
/// digest of an empty selection.
pub open spec fn default_nv_auth_policy_ok(p: TPM_NV_AUTH_POLICY) -> bool {
    &&& pcr_info_is(p.pcr_info_read, 0x17, EMPTY_PCR_SELECTION_SHA1@)
    &&& pcr_info_is(p.pcr_info_write, 0x17, EMPTY_PCR_SELECTION_SHA1@)
}

/// `p` selects three zero bytes of PCRs, with the given locality and digest.
pub open spec fn pcr_info_is(p: TPM_PCR_INFO_SHORT, locality: u8, digest: Seq<u8>) -> bool {
    &&& p.pcrSelection.sizeOfSelect == 3
    &&& p.pcrSelection.pcrSelect@ == seq![0u8, 0u8, 0u8]
    &&& p.localityAtRelease == locality
    &&& p.digestAtRelease.digest@ == digest
}

/// Sets `policy` to the default NV policy: no PCRs, every locality but three.
pub fn init_default_nv_auth_policy(policy: &mut TPM_NV_AUTH_POLICY)
    ensures
        default_nv_auth_policy_ok(*final(policy)),
{
    let pcr_info = TPM_PCR_INFO_SHORT {
        pcrSelection: TPM_PCR_SELECTION { sizeOfSelect: 3, pcrSelect: [0, 0, 0] },
        localityAtRelease: (TPM_ALL_LOCALITIES & !TPM_LOC_THREE) as u8,
        digestAtRelease: TPM_DIGEST { digest: EMPTY_PCR_SELECTION_SHA1 },
    };
    assert((TPM_ALL_LOCALITIES & !TPM_LOC_THREE) == 0x17u32) by (bit_vector);
    assert(pcr_info.pcrSelection.pcrSelect@ =~= seq![0u8, 0u8, 0u8]);
    policy.pcr_info_read = pcr_info;
    policy.pcr_info_write = pcr_info;
}

/// Sets `policy` to the policy that NV_DefineSpace uses when none is given:
/// no PCRs, every locality, an all-zero digest.
pub fn init_define_space_default_auth_policy(policy: &mut TPM_NV_AUTH_POLICY)
    ensures
        pcr_info_is(final(policy).pcr_info_read, 0x1f, Seq::new(20, |i: int| 0u8)),
        pcr_info_is(final(policy).pcr_info_write, 0x1f, Seq::new(20, |i: int| 0u8)),
{
    let pcr_info = TPM_PCR_INFO_SHORT {
        pcrSelection: TPM_PCR_SELECTION { sizeOfSelect: 3, pcrSelect: [0, 0, 0] },
        localityAtRelease: TPM_ALL_LOCALITIES as u8,
        digestAtRelease: TPM_DIGEST { digest: [0u8; 20] },
    };
    assert(TPM_ALL_LOCALITIES == 0x1fu32) by (bit_vector);
    assert(pcr_info.pcrSelection.pcrSelect@ =~= seq![0u8, 0u8, 0u8]);
    assert(pcr_info.digestAtRelease.digest@ =~= Seq::new(20, |i: int| 0u8));
    policy.pcr_info_read = pcr_info;
    policy.pcr_info_write = pcr_info;
}

} // verus!
