//! What the TPM 1.2 requests hold, byte by byte, read back with the
//! big-endian decoders: the layouts the TPM expects of the commands that
//! carry parameters.
use vstd::prelude::*;

use crate::tlcl::bytes::{be16_at, be16_bytes, be32_at, be32_bytes, lemma_be16_roundtrip, lemma_be32_roundtrip};
use crate::tlcl::tpm12::constants::{
    TPM_ORD_NV_DefineSpace, TPM_ORD_NV_ReadValue, TPM_ORD_NV_WriteValue, TPM_TAG_NV_ATTRIBUTES,
    TPM_TAG_NV_DATA_PUBLIC, TPM_TAG_RQU_COMMAND, Tpm1CommandBody, tpm1_nv_define_space_cmd,
    tpm1_nv_read_cmd, tpm1_nv_write_cmd,
};
use crate::tlcl::tpm12::tpm1_request;

verus! {

/// A 32-bit field reads back where its four bytes were put.
pub proof fn lemma_be32_in(r: Seq<u8>, a: int, x: u32)
    requires
        0 <= a,
        a + 4 <= r.len(),
        r.subrange(a, a + 4) == be32_bytes(x),
    ensures
        be32_at(r, a) == x,
{
    lemma_be32_roundtrip(x);
    assert(r[a] == be32_bytes(x)[0] && r[a + 1] == be32_bytes(x)[1] && r[a + 2] == be32_bytes(x)[2]
        && r[a + 3] == be32_bytes(x)[3]) by {
        assert(r.subrange(a, a + 4)[0] == r[a]);
        assert(r.subrange(a, a + 4)[1] == r[a + 1]);
        assert(r.subrange(a, a + 4)[2] == r[a + 2]);
        assert(r.subrange(a, a + 4)[3] == r[a + 3]);
    }
}

/// A 16-bit field reads back where its two bytes were put.
pub proof fn lemma_be16_in(r: Seq<u8>, a: int, x: u16)
    requires
        0 <= a,
        a + 2 <= r.len(),
        r.subrange(a, a + 2) == be16_bytes(x),
    ensures
        be16_at(r, a) == x,
{
    lemma_be16_roundtrip(x);
    assert(r[a] == be16_bytes(x)[0] && r[a + 1] == be16_bytes(x)[1]) by {
        assert(r.subrange(a, a + 2)[0] == r[a]);
        assert(r.subrange(a, a + 2)[1] == r[a + 1]);
    }
}

/// An NV_WriteValue request is a 22-byte header and fields followed by the
/// data: its size field is the number of bytes asked to be written, which
/// is exactly the number of data bytes that follow, and those are the
/// first bytes of the data.
pub proof fn lemma_nv_write_request(c: tpm1_nv_write_cmd)
    requires
        c.size <= c.data@.len(),
        22 + c.size < 2048,
    ensures
        ({
            let r = tpm1_request(TPM_ORD_NV_WriteValue, Tpm1CommandBody::NvWrite(c));
            &&& r.len() == 22 + c.size
            &&& be16_at(r, 0) == TPM_TAG_RQU_COMMAND
            &&& be32_at(r, 2) == r.len()
            &&& be32_at(r, 6) == TPM_ORD_NV_WriteValue
            &&& be32_at(r, 10) == c.nvIndex
            &&& be32_at(r, 14) == c.offset
            &&& be32_at(r, 18) == c.size
            &&& be32_at(r, 18) == r.len() - 22
            &&& r.subrange(22, r.len() as int) == c.data@.take(c.size as int)
        }),
{
    let r = tpm1_request(TPM_ORD_NV_WriteValue, Tpm1CommandBody::NvWrite(c));
    let n = (22 + c.size) as u32;
    assert(r.len() == 22 + c.size);
    assert(r.subrange(0, 2) =~= be16_bytes(TPM_TAG_RQU_COMMAND));
    assert(r.subrange(2, 6) =~= be32_bytes(n));
    assert(r.subrange(6, 10) =~= be32_bytes(TPM_ORD_NV_WriteValue));
    assert(r.subrange(10, 14) =~= be32_bytes(c.nvIndex));
    assert(r.subrange(14, 18) =~= be32_bytes(c.offset));
    assert(r.subrange(18, 22) =~= be32_bytes(c.size));
    assert(r.subrange(22, r.len() as int) =~= c.data@.take(c.size as int));
    lemma_be16_in(r, 0, TPM_TAG_RQU_COMMAND);
    lemma_be32_in(r, 2, n);
    lemma_be32_in(r, 6, TPM_ORD_NV_WriteValue);
    lemma_be32_in(r, 10, c.nvIndex);
    lemma_be32_in(r, 14, c.offset);
    lemma_be32_in(r, 18, c.size);
}

/// An NV_ReadValue request is 22 bytes: the header announcing them, then
/// the index, the offset and the number of bytes asked for.
pub proof fn lemma_nv_read_request(c: tpm1_nv_read_cmd)
    ensures
        ({
            let r = tpm1_request(TPM_ORD_NV_ReadValue, Tpm1CommandBody::NvRead(c));
            &&& r.len() == 22
            &&& be16_at(r, 0) == TPM_TAG_RQU_COMMAND
            &&& be32_at(r, 2) == 22
            &&& be32_at(r, 6) == TPM_ORD_NV_ReadValue
            &&& be32_at(r, 10) == c.nvIndex
            &&& be32_at(r, 14) == c.offset
            &&& be32_at(r, 18) == c.size
        }),
{
    let r = tpm1_request(TPM_ORD_NV_ReadValue, Tpm1CommandBody::NvRead(c));
    assert(r.len() == 22);
    assert(r.subrange(0, 2) =~= be16_bytes(TPM_TAG_RQU_COMMAND));
    assert(r.subrange(2, 6) =~= be32_bytes(22));
    assert(r.subrange(6, 10) =~= be32_bytes(TPM_ORD_NV_ReadValue));
    assert(r.subrange(10, 14) =~= be32_bytes(c.nvIndex));
    assert(r.subrange(14, 18) =~= be32_bytes(c.offset));
    assert(r.subrange(18, 22) =~= be32_bytes(c.size));
    lemma_be16_in(r, 0, TPM_TAG_RQU_COMMAND);
    lemma_be32_in(r, 2, 22);
    lemma_be32_in(r, 6, TPM_ORD_NV_ReadValue);
    lemma_be32_in(r, 10, c.nvIndex);
    lemma_be32_in(r, 14, c.offset);
    lemma_be32_in(r, 18, c.size);
}

/// An NV_DefineSpace request with a PCR policy is 101 bytes holding a
/// TPM_NV_DATA_PUBLIC: its tag and the index; the read and then the write
/// PCR policy, each the selection size, three selection bytes, the
/// locality and the twenty-byte digest; the attributes tag and the
/// permissions; bReadSTClear, bWriteSTClear and bWriteDefine all zero; the
/// data size; and twenty zero bytes.
pub proof fn lemma_nv_define_space_request(c: tpm1_nv_define_space_cmd)
    requires
        c.auth_policy is Some,
    ensures
        ({
            let r = tpm1_request(TPM_ORD_NV_DefineSpace, Tpm1CommandBody::NvDefineSpace(c));
            let rd = c.auth_policy->0.pcr_info_read;
            let wr = c.auth_policy->0.pcr_info_write;
            &&& r.len() == 101
            &&& be16_at(r, 0) == TPM_TAG_RQU_COMMAND
            &&& be32_at(r, 2) == 101
            &&& be32_at(r, 6) == TPM_ORD_NV_DefineSpace
            &&& be16_at(r, 10) == TPM_TAG_NV_DATA_PUBLIC
            &&& be32_at(r, 12) == c.nvIndex
            &&& be16_at(r, 16) == rd.pcrSelection.sizeOfSelect
            &&& r.subrange(18, 21) == rd.pcrSelection.pcrSelect@
            &&& r[21] == rd.localityAtRelease
            &&& r.subrange(22, 42) == rd.digestAtRelease.digest@
            &&& be16_at(r, 42) == wr.pcrSelection.sizeOfSelect
            &&& r.subrange(44, 47) == wr.pcrSelection.pcrSelect@
            &&& r[47] == wr.localityAtRelease
            &&& r.subrange(48, 68) == wr.digestAtRelease.digest@
            &&& be16_at(r, 68) == TPM_TAG_NV_ATTRIBUTES
            &&& be32_at(r, 70) == c.perm
            &&& r[74] == 0 && r[75] == 0 && r[76] == 0
            &&& be32_at(r, 77) == c.size
            &&& forall|i: int| 81 <= i < 101 ==> #[trigger] r[i] == 0
        }),
{
    let r = tpm1_request(TPM_ORD_NV_DefineSpace, Tpm1CommandBody::NvDefineSpace(c));
    let rd = c.auth_policy->0.pcr_info_read;
    let wr = c.auth_policy->0.pcr_info_write;
    assert(r.len() == 101);
    assert(r.subrange(0, 2) =~= be16_bytes(TPM_TAG_RQU_COMMAND));
    assert(r.subrange(2, 6) =~= be32_bytes(101));
    assert(r.subrange(6, 10) =~= be32_bytes(TPM_ORD_NV_DefineSpace));
    assert(r.subrange(10, 12) =~= be16_bytes(TPM_TAG_NV_DATA_PUBLIC));
    assert(r.subrange(12, 16) =~= be32_bytes(c.nvIndex));
    assert(r.subrange(16, 18) =~= be16_bytes(rd.pcrSelection.sizeOfSelect));
    assert(r.subrange(18, 21) =~= rd.pcrSelection.pcrSelect@);
    assert(r.subrange(22, 42) =~= rd.digestAtRelease.digest@);
    assert(r.subrange(42, 44) =~= be16_bytes(wr.pcrSelection.sizeOfSelect));
    assert(r.subrange(44, 47) =~= wr.pcrSelection.pcrSelect@);
    assert(r.subrange(48, 68) =~= wr.digestAtRelease.digest@);
    assert(r.subrange(68, 70) =~= be16_bytes(TPM_TAG_NV_ATTRIBUTES));
    assert(r.subrange(70, 74) =~= be32_bytes(c.perm));
    assert(r.subrange(77, 81) =~= be32_bytes(c.size));
    lemma_be16_in(r, 0, TPM_TAG_RQU_COMMAND);
    lemma_be32_in(r, 2, 101);
    lemma_be32_in(r, 6, TPM_ORD_NV_DefineSpace);
    lemma_be16_in(r, 10, TPM_TAG_NV_DATA_PUBLIC);
    lemma_be32_in(r, 12, c.nvIndex);
    lemma_be16_in(r, 16, rd.pcrSelection.sizeOfSelect);
    lemma_be16_in(r, 42, wr.pcrSelection.sizeOfSelect);
    lemma_be16_in(r, 68, TPM_TAG_NV_ATTRIBUTES);
    lemma_be32_in(r, 70, c.perm);
    lemma_be32_in(r, 77, c.size);
}

} // verus!
