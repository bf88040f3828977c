//! TPM 2.0 constants and command/response structures.
use vstd::prelude::*;

verus! {

pub const TPM_BUFFER_SIZE: usize = 2048;

// Tpm2 command tags.
pub const TPM_ST_NO_SESSIONS: u16 = 0x8001;
pub const TPM_ST_SESSIONS: u16 = 0x8002;

// TPM2 command codes.
pub const TPM2_EvictControl: TPM_CC = 0x00000120;
pub const TPM2_Hierarchy_Control: TPM_CC = 0x00000121;
pub const TPM2_NV_UndefineSpace: TPM_CC = 0x00000122;
pub const TPM2_Clear: TPM_CC = 0x00000126;
pub const TPM2_NV_DefineSpace: TPM_CC = 0x0000012A;
pub const TPM2_CreatePrimary: TPM_CC = 0x00000131;
pub const TPM2_NV_Write: TPM_CC = 0x00000137;
pub const TPM2_NV_WriteLock: TPM_CC = 0x00000138;
pub const TPM2_SelfTest: TPM_CC = 0x00000143;
pub const TPM2_Startup: TPM_CC = 0x00000144;
pub const TPM2_Shutdown: TPM_CC = 0x00000145;
pub const TPM2_NV_Read: TPM_CC = 0x0000014E;
pub const TPM2_NV_ReadLock: TPM_CC = 0x0000014F;
pub const TPM2_NV_ReadPublic: TPM_CC = 0x00000169;
pub const TPM2_ReadPublic: TPM_CC = 0x00000173;
pub const TPM2_GetCapability: TPM_CC = 0x0000017A;
pub const TPM2_GetRandom: TPM_CC = 0x0000017B;
pub const TPM2_PCR_Extend: TPM_CC = 0x00000182;

pub const TPM_HT_PCR: u32 = 0x00;
pub const TPM_HT_NV_INDEX: u32 = 0x01;

pub const HR_SHIFT: u32 = 24;
pub const HR_PCR: u32 = TPM_HT_PCR << HR_SHIFT;
pub const HR_NV_INDEX: u32 = TPM_HT_NV_INDEX << HR_SHIFT;
pub const TPM_RH_OWNER: u32 = 0x40000001;
pub const TPM_RH_NULL: u32 = 0x40000007;
pub const TPM_RH_ENDORSEMENT: u32 = 0x4000000B;
pub const TPM_RH_PLATFORM: u32 = 0x4000000C;
pub const TPM_RS_PW: u32 = 0x40000009;

// TPM2 capabilities.
pub const TPM_CAP_FIRST: TPM_CAP = 0x00000000;
pub const TPM_CAP_TPM_PROPERTIES: TPM_CAP = 0x00000006;

// TPM properties
pub const TPM_PT_NONE: TPM_PT = 0x00000000;
pub const PT_GROUP: TPM_PT = 0x00000100;
pub const PT_FIXED: TPM_PT = PT_GROUP;
pub const TPM_PT_MANUFACTURER: TPM_PT = PT_FIXED + 5;
pub const TPM_PT_VENDOR_STRING_1: TPM_PT = PT_FIXED + 6;
pub const TPM_PT_VENDOR_STRING_4: TPM_PT = PT_FIXED + 9;
pub const TPM_PT_FIRMWARE_VERSION_1: TPM_PT = PT_FIXED + 11;
pub const TPM_PT_FIRMWARE_VERSION_2: TPM_PT = PT_FIXED + 12;
pub const PT_VAR: TPM_PT = PT_GROUP * 2;
pub const TPM_PT_PERMANENT: TPM_PT = PT_VAR + 0;
pub const TPM_PT_STARTUP_CLEAR: TPM_PT = PT_VAR + 1;

// TPM startup types.
pub const TPM_SU_CLEAR: TPM_SU = 0x0000;
pub const TPM_SU_STATE: TPM_SU = 0x0001;

// TPM algorithm IDs.
pub const TPM_ALG_SHA1: TPM_ALG_ID = 0x0004;
pub const TPM_ALG_SHA256: TPM_ALG_ID = 0x000B;
pub const TPM_ALG_NULL: TPM_ALG_ID = 0x0010;

// NV index attributes.
pub const TPMA_NV_PPWRITE: TPMA_NV = 1 << 0;
pub const TPMA_NV_OWNERWRITE: TPMA_NV = 1 << 1;
pub const TPMA_NV_AUTHWRITE: TPMA_NV = 1 << 2;
pub const TPMA_NV_POLICYWRITE: TPMA_NV = 1 << 3;
pub const TPMA_NV_COUNTER: TPMA_NV = 1 << 4;
pub const TPMA_NV_BITS: TPMA_NV = 1 << 5;
pub const TPMA_NV_EXTEND: TPMA_NV = 1 << 6;
pub const TPMA_NV_POLICY_DELETE: TPMA_NV = 1 << 10;
pub const TPMA_NV_WRITELOCKED: TPMA_NV = 1 << 11;
pub const TPMA_NV_WRITEALL: TPMA_NV = 1 << 12;
pub const TPMA_NV_WRITEDEFINE: TPMA_NV = 1 << 13;
pub const TPMA_NV_WRITE_STCLEAR: TPMA_NV = 1 << 14;
pub const TPMA_NV_GLOBALLOCK: TPMA_NV = 1 << 15;
pub const TPMA_NV_PPREAD: TPMA_NV = 1 << 16;
pub const TPMA_NV_OWNERREAD: TPMA_NV = 1 << 17;
pub const TPMA_NV_AUTHREAD: TPMA_NV = 1 << 18;
pub const TPMA_NV_POLICYREAD: TPMA_NV = 1 << 19;
pub const TPMA_NV_NO_DA: TPMA_NV = 1 << 25;
pub const TPMA_NV_ORDERLY: TPMA_NV = 1 << 26;
pub const TPMA_NV_CLEAR_STCLEAR: TPMA_NV = 1 << 27;
pub const TPMA_NV_READLOCKED: TPMA_NV = 1 << 28;
pub const TPMA_NV_WRITTEN: TPMA_NV = 1 << 29;
pub const TPMA_NV_PLATFORMCREATE: TPMA_NV = 1 << 30;
pub const TPMA_NV_READ_STCLEAR: TPMA_NV = 1 << 31;

pub const TPMA_NV_MASK_READ: TPMA_NV = TPMA_NV_PPREAD | TPMA_NV_OWNERREAD | TPMA_NV_AUTHREAD | TPMA_NV_POLICYREAD;
pub const TPMA_NV_MASK_WRITE: TPMA_NV = TPMA_NV_PPWRITE | TPMA_NV_OWNERWRITE | TPMA_NV_AUTHWRITE | TPMA_NV_POLICYWRITE;

pub const TPMI_RH_NV_INDEX_TPM_START: TPMI_RH_NV_INDEX = 0x01000000;
pub const TPMI_RH_NV_INDEX_PLATFORM_START: TPMI_RH_NV_INDEX = 0x01400000;
pub const TPMI_RH_NV_INDEX_OWNER_START: TPMI_RH_NV_INDEX = 0x01800000;
pub const TPMI_RH_NV_INDEX_TCG_OEM_START: TPMI_RH_NV_INDEX = 0x01C00000;
pub const TPMI_RH_NV_INDEX_TCG_WG_START: TPMI_RH_NV_INDEX = 0x01C40000;
pub const TPMI_RH_NV_INDEX_RESERVED_START: TPMI_RH_NV_INDEX = 0x01C90000;

/// Only SHA-256 is supported.
pub const HASH_COUNT: usize = 1;
// Table 206 - Defines for SHA256 Hash Values
pub const SHA256_DIGEST_SIZE: usize = 32;

pub type TPMI_YES_NO = u8;
pub type TPM_CC = u32;
pub type TPM_HANDLE = u32;
pub type TPMI_DH_OBJECT = TPM_HANDLE;
pub type TPMI_DH_PCR = TPM_HANDLE;
pub type TPMI_DH_PERSISTENT = TPM_HANDLE;
pub type TPMI_RH_ENABLES = TPM_HANDLE;
pub type TPMI_RH_HIERARCHY = TPM_HANDLE;
pub type TPMI_RH_NV_INDEX = TPM_HANDLE;
pub type TPMI_RH_PROVISION = TPM_HANDLE;
pub type TPM_CAP = u32;
pub type TPM_PT = u32;
pub type TPM_SU = u16;
pub type TPM_ALG_ID = u16;
pub type TPMI_ALG_HASH = TPM_ALG_ID;
pub type TPMA_NV = u32;

/// A size-prefixed byte string; `buffer` holds its `size` bytes.
pub struct TPM2B {
    pub size: u16,
    pub buffer: Vec<u8>,
}

impl TPM2B {
    /// The empty byte string.
    pub fn empty() -> (r: Self)
        ensures
            r.size == 0,
            r.buffer@ == Seq::<u8>::empty(),
    {
        TPM2B { size: 0, buffer: Vec::new() }
    }
}

pub struct TPMS_TAGGED_PROPERTY {
    pub property: TPM_PT,
    pub value: u32,
}

pub struct TPML_TAGGED_TPM_PROPERTY {
    pub count: u32,
    pub tpm_property: [TPMS_TAGGED_PROPERTY; 1],
}

/// A digest with its algorithm; only SHA-256 digests are held.
pub struct TPMT_HA {
    pub hashAlg: TPMI_ALG_HASH,
    pub digest: [u8; 32],
}

pub struct TPML_DIGEST_VALUES {
    pub count: u32,
    pub digests: [TPMT_HA; 1],
}

/// Capability data; only TPM properties are held.
pub struct TPMS_CAPABILITY_DATA {
    pub capability: TPM_CAP,
    pub data: TPML_TAGGED_TPM_PROPERTY,
}

/// The public area of an NV index.
pub struct TPMS_NV_PUBLIC {
    pub nvIndex: TPMI_RH_NV_INDEX,
    pub nameAlg: TPMI_ALG_HASH,
    pub attributes: TPMA_NV,
    pub authPolicy: TPM2B,
    pub dataSize: u16,
}

impl TPMS_NV_PUBLIC {
    /// A public area with every field zero.
    pub fn zeroed() -> (r: Self)
        ensures
            r.nvIndex == 0 && r.nameAlg == 0 && r.attributes == 0 && r.dataSize == 0,
            r.authPolicy.size == 0 && r.authPolicy.buffer@ == Seq::<u8>::empty(),
    {
        TPMS_NV_PUBLIC { nvIndex: 0, nameAlg: 0, attributes: 0, authPolicy: TPM2B::empty(), dataSize: 0 }
    }
}

pub struct tpm2_nv_define_space_cmd {
    pub auth: TPM2B,
    pub publicInfo: TPMS_NV_PUBLIC,
}

pub struct tpm2_nv_undefine_space_cmd {
    pub nvIndex: TPMI_RH_NV_INDEX,
    pub use_platform_auth: u8,
}

pub struct tpm2_nv_read_cmd {
    pub nvIndex: TPMI_RH_NV_INDEX,
    pub size: u16,
    pub offset: u16,
}

pub struct tpm2_nv_write_cmd {
    pub nvIndex: TPMI_RH_NV_INDEX,
    pub data: TPM2B,
    pub offset: u16,
}

pub struct tpm2_nv_read_lock_cmd {
    pub nvIndex: TPMI_RH_NV_INDEX,
}

pub struct tpm2_nv_write_lock_cmd {
    pub nvIndex: TPMI_RH_NV_INDEX,
}

pub struct tpm2_nv_read_public_cmd {
    pub nvIndex: TPMI_RH_NV_INDEX,
}

pub struct tpm2_hierarchy_control_cmd {
    pub enable: TPMI_RH_ENABLES,
    pub state: TPMI_YES_NO,
}

pub struct tpm2_get_capability_cmd {
    pub capability: TPM_CAP,
    pub property: u32,
    pub property_count: u32,
}

pub struct tpm2_get_random_cmd {
    pub bytes_requested: u16,
}

pub struct tpm2_self_test_cmd {
    pub full_test: TPMI_YES_NO,
}

pub struct tpm2_startup_cmd {
    pub startup_type: TPM_SU,
}

pub struct tpm2_shutdown_cmd {
    pub shutdown_type: TPM_SU,
}

pub struct tpm2_pcr_extend_cmd {
    pub pcrHandle: TPMI_DH_PCR,
    pub digests: TPML_DIGEST_VALUES,
}

pub struct tpm2_read_public_cmd {
    pub object_handle: TPMI_DH_OBJECT,
}

pub struct tpm2_evict_control_cmd {
    pub auth: TPMI_RH_PROVISION,
    pub object_handle: TPMI_DH_OBJECT,
    pub persistent_handle: TPMI_DH_PERSISTENT,
}

pub struct tpm2_create_primary_cmd {
    pub primary_handle: TPMI_RH_HIERARCHY,
    pub in_sensitive: TPM2B,
    pub in_public: TPM2B,
}

/// The parameters of a command, by kind; `NoBody` stands for a command
/// sent without parameters.
pub enum Tpm2CommandBody {
    NoBody,
    NvDefineSpace(tpm2_nv_define_space_cmd),
    NvUndefineSpace(tpm2_nv_undefine_space_cmd),
    NvRead(tpm2_nv_read_cmd),
    NvWrite(tpm2_nv_write_cmd),
    NvReadPublic(tpm2_nv_read_public_cmd),
    Startup(tpm2_startup_cmd),
    Shutdown(tpm2_shutdown_cmd),
}

/// The ten-byte header that opens every command and response.
#[derive(Clone, Copy)]
pub struct tpm_header {
    pub tpm_tag: u16,
    pub tpm_size: u32,
    pub tpm_code: u32,
}

pub struct nv_read_response {
    pub params_size: u32,
    pub buffer: TPM2B,
}

pub struct read_public_response {
    pub buffer: TPM2B,
}

/// Session attribute bits: continueSession (bit 0), auditExclusive (1),
/// auditReset (2), decrypt (5), encrypt (6), audit (7).
#[derive(Clone, Copy)]
pub struct tpm2_session_attrs(pub u8);

pub const TPM2_SESSION_CONTINUE_SESSION: u8 = 1u8 << 0u8;
pub const TPM2_SESSION_AUDIT_EXCLUSIVE: u8 = 1u8 << 1u8;
pub const TPM2_SESSION_AUDIT_RESET: u8 = 1u8 << 2u8;
pub const TPM2_SESSION_DECRYPT: u8 = 1u8 << 5u8;
pub const TPM2_SESSION_ENCRYPT: u8 = 1u8 << 6u8;
pub const TPM2_SESSION_AUDIT: u8 = 1u8 << 7u8;

/// An authorisation session: `nonce` and `auth` hold at least
/// `nonce_size` and `auth_size` bytes.
pub struct tpm2_session_header {
    pub session_handle: u32,
    pub nonce_size: u16,
    pub nonce: Vec<u8>,
    pub attrs: tpm2_session_attrs,
    pub auth_size: u16,
    pub auth: Vec<u8>,
}

pub struct get_capability_response {
    pub more_data: TPMI_YES_NO,
    pub capability_data: TPMS_CAPABILITY_DATA,
}

pub struct get_random_response {
    pub random_bytes: TPM2B_DIGEST,
}

pub struct nv_read_public_response {
    pub nvPublic: TPMS_NV_PUBLIC,
    pub nvName: TPM2B_NAME,
}

impl nv_read_public_response {
    /// A response with every field zero.
    pub fn zeroed() -> (r: Self)
        ensures
            r.nvPublic.nvIndex == 0 && r.nvPublic.nameAlg == 0 && r.nvPublic.attributes == 0
                && r.nvPublic.dataSize == 0,
            r.nvPublic.authPolicy.size == 0 && r.nvPublic.authPolicy.buffer@ == Seq::<u8>::empty(),
            r.nvName.size == 0 && r.nvName.buffer@ == Seq::<u8>::empty(),
    {
        nv_read_public_response { nvPublic: TPMS_NV_PUBLIC::zeroed(), nvName: TPM2B::empty() }
    }
}

pub struct create_primary_response {
    pub object_handle: TPM_HANDLE,
}

/// The parsed parameters of a response, by the command they answer.
pub enum tpm2_response_body {
    Empty,
    Nvr(nv_read_response),
    DefSpace(tpm2_session_header),
    Cap(get_capability_response),
    Random(get_random_response),
    NvReadPublic(nv_read_public_response),
    ReadPub(read_public_response),
    CreatePrimary(create_primary_response),
}

pub struct tpm2_response {
    pub hdr: tpm_header,
    pub body: tpm2_response_body,
}

impl tpm2_response {
    /// A response with a zero header and no parameters.
    pub fn zeroed() -> (r: Self)
        ensures
            r.hdr.tpm_tag == 0 && r.hdr.tpm_size == 0 && r.hdr.tpm_code == 0,
            r.body is Empty,
    {
        tpm2_response {
            hdr: tpm_header { tpm_tag: 0, tpm_size: 0, tpm_code: 0 },
            body: tpm2_response_body::Empty,
        }
    }
}

/// Permanent flags: ownerAuthSet (bit 0), endorsementAuthSet (1),
/// lockoutAuthSet (2), disableClear (8), inLockout (9), tpmGeneratedEPS (10).
pub struct TPM_PERMANENT_FLAGS(pub u32);

pub const TPM_PERMANENT_OWNER_AUTH_SET: u32 = 1u32 << 0u32;
pub const TPM_PERMANENT_ENDORSEMENT_AUTH_SET: u32 = 1u32 << 1u32;
pub const TPM_PERMANENT_LOCKOUT_AUTH_SET: u32 = 1u32 << 2u32;
pub const TPM_PERMANENT_DISABLE_CLEAR: u32 = 1u32 << 8u32;
pub const TPM_PERMANENT_IN_LOCKOUT: u32 = 1u32 << 9u32;
pub const TPM_PERMANENT_TPM_GENERATED_EPS: u32 = 1u32 << 10u32;

/// Startup-clear flags: phEnable (bit 0), shEnable (1), ehEnable (2),
/// phEnableNV (3), orderly (31).
pub struct TPM_STCLEAR_FLAGS(pub u32);

pub const TPM_STCLEAR_PH_ENABLE: u32 = 1u32 << 0u32;
pub const TPM_STCLEAR_SH_ENABLE: u32 = 1u32 << 1u32;
pub const TPM_STCLEAR_EH_ENABLE: u32 = 1u32 << 2u32;
pub const TPM_STCLEAR_PH_ENABLE_NV: u32 = 1u32 << 3u32;
pub const TPM_STCLEAR_ORDERLY: u32 = 1u32 << 31u32;

pub struct TPM_IFX_FIELDUPGRADEINFO;

pub type TPM2B_DIGEST = TPM2B;
pub type TPM2B_AUTH = TPM2B;
pub type TPM2B_NAME = TPM2B;

/// Size of the header that opens every command and response.
pub const TPM_CMD_HEADER_SIZE: usize = 10;

pub const TPM_MAX_COMMAND_SIZE: usize = 4096;
pub const TPM_PCR_DIGEST: usize = 32;

} // verus!
