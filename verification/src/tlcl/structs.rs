//! Plain TPM 2.0 records used by the hand-built commands and by callers
//! that keep parsed responses.
use vstd::prelude::*;

use crate::tlcl::tpm20::constants::TPM2B;

verus! {

/// An authorisation session as the hand-built commands send it: the
/// handle, the sizes of the nonce and of the authorisation (sent empty),
/// and the attributes.  `nonce` and `auth` locate the bytes, which these
/// commands never send.
pub struct Tpm2SessionHeader {
    pub session_handle: u32,
    pub nonce_size: u16,
    pub nonce: usize,
    pub session_attrs: u8,
    pub auth_size: u16,
    pub auth: usize,
}

/// The header of a command or response.
pub struct Tpm2TpmHeader {
    pub tpm_tag: u16,
    pub tpm_size: u32,
    pub tpm_code: u32,
}

pub struct NvReadResponse {
    pub params_size: u32,
    pub buffer: TPM2B,
}

pub struct TpmsTaggedProperty {
    pub property: u32,
    pub value: u32,
}

pub struct TpmlTaggedTpmProperty {
    pub count: u32,
    pub tpm_property: [TpmsTaggedProperty; 1],
}

/// Capability data; only TPM properties are held.
pub struct TpmuCapabilities {
    pub tpm_properties: TpmlTaggedTpmProperty,
}

pub struct TpmsCapabilityData {
    pub capability: u32,
    pub data: TpmuCapabilities,
}

pub struct GetCapabilityResponse {
    pub more_data: u8,
    pub capability_data: TpmsCapabilityData,
}

pub struct GetRandomResponse {
    pub random_bytes: TPM2B,
}

pub struct TpmsNvPublic {
    pub nvIndex: u32,
    pub nameAlg: u16,
    pub attributes: u32,
    pub authPolicy: TPM2B,
    pub dataSize: u16,
}

pub struct NvReadPublicResponse {
    pub nvPublic: TpmsNvPublic,
    pub nvName: TPM2B,
}

pub struct ReadPublicResponse {
    pub buffer: TPM2B,
}

pub struct CreatePrimaryResponse {
    pub object_handle: u32,
}

/// The parameters of a response, by the command they answer.
pub enum Tpm2ResponseData {
    Nvr(NvReadResponse),
    DefSpace(Tpm2SessionHeader),
    Cap(GetCapabilityResponse),
    Random(GetRandomResponse),
    NvReadPublic(NvReadPublicResponse),
    ReadPub(ReadPublicResponse),
    CreatePrimary(CreatePrimaryResponse),
}

/// A response: its header and its parameters.
pub struct Tpm2Response {
    pub hdr: Tpm2TpmHeader,
    pub data: Tpm2ResponseData,
}

} // verus!
