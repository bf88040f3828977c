use std::cell::RefCell;

use libcros::tlcl::commands::tpm12::define_space;
use libcros::tlcl::bytes::{read_be16, read_be32, write_be16, write_be32};
use libcros::tlcl::commands::tpm12::{
    TlclAssertPhysicalPresence, TlclDefineSpace, TlclDefineSpaceEx, TlclForceClear, TlclGetPermissions,
    TlclGetSpaceInfo, TlclInitNvAuthPolicy, TlclNVReadPublic, TlclRead, TlclReadWithOffset, TlclResume,
    TlclSaveState, TlclSetEnable, TlclStartup, TlclUndefineSpace, TlclUndefineSpaceEx, TlclWrite,
    TlclWriteWithOffset,
};
use libcros::tlcl::constants::{
    TPM_E_AUTHFAIL, TPM_E_BUFFER_SIZE, TPM_E_COMMUNICATION_ERROR, TPM_E_INVALID_RESPONSE,
    TPM_E_NO_SUCH_COMMAND, TPM_E_READ_EMPTY, TPM_E_READ_FAILURE, TPM_E_RESPONSE_TOO_LARGE,
    TPM_E_WRITE_FAILURE, TPM_SUCCESS,
};
use libcros::tlcl::tpm12::constants::{
    TPM_ORD_ForceClear, TPM_ORD_NV_ReadValue, TPM_ORD_NV_WriteValue, TPM_ORD_SaveState,
    TPM_ORD_NV_DefineSpace, Tpm1CommandBody, tpm1_nv_define_space_cmd, tpm1_nv_read_cmd,
    tpm1_nv_write_cmd, tpm1_response,
};
use libcros::tlcl::tpm12::constants::{
    TPM_DIGEST, TPM_NV_AUTH_POLICY, TPM_PCR_INFO_SHORT, TPM_PCR_SELECTION,
};
use libcros::tlcl::tpm12::marshal::tpm_marshal_command;
use libcros::tlcl::tpm12::utils::{
    EMPTY_PCR_SELECTION_SHA1, decode_pcr_info, encode_nv_auth_policy, init_default_nv_auth_policy,
};
use libcros::tlcl::tpm12::unmarshal::tpm_unmarshal_response;
use libcros::tlcl::tpm12::{TlclGetTPMVersion, tpm_get_response_code};

fn default_policy() -> TPM_NV_AUTH_POLICY {
    let info = TPM_PCR_INFO_SHORT {
        pcrSelection: TPM_PCR_SELECTION { sizeOfSelect: 0, pcrSelect: [0; 3] },
        localityAtRelease: 0,
        digestAtRelease: TPM_DIGEST { digest: [0; 20] },
    };
    let mut p = TPM_NV_AUTH_POLICY { pcr_info_read: info, pcr_info_write: info };
    init_default_nv_auth_policy(&mut p);
    p
}

fn response(code: u32, params: &[u8]) -> Vec<u8> {
    let size = 10 + params.len() as u32;
    let mut r = vec![0x00, 0xc4];
    r.extend_from_slice(&size.to_be_bytes());
    r.extend_from_slice(&code.to_be_bytes());
    r.extend_from_slice(params);
    r
}

#[test]
fn be_fields_round_trip() {
    let mut buf = [0u8; 8];
    write_be16(&mut buf, 1, 0xBEEF);
    write_be32(&mut buf, 3, 0x01020304);
    assert_eq!(buf, [0, 0xBE, 0xEF, 1, 2, 3, 4, 0]);
    assert_eq!(read_be16(&buf, 1), 0xBEEF);
    assert_eq!(read_be32(&buf, 3), 0x01020304);
}

#[test]
fn force_clear_command_bytes() {
    let mut buf = [0u8; 2048];
    let n = tpm_marshal_command(TPM_ORD_ForceClear, &Tpm1CommandBody::NoBody, &mut buf, 2048);
    assert_eq!(n, 10);
    assert_eq!(&buf[..10], &[0x00, 0xc1, 0, 0, 0, 10, 0, 0, 0, 0x5d]);
}

#[test]
fn nv_read_command_bytes() {
    let mut buf = [0u8; 2048];
    let body = Tpm1CommandBody::NvRead(tpm1_nv_read_cmd { nvIndex: 0x1008, offset: 4, size: 16 });
    let n = tpm_marshal_command(TPM_ORD_NV_ReadValue, &body, &mut buf, 2048);
    assert_eq!(n, 22);
    assert_eq!(
        &buf[..22],
        &[0x00, 0xc1, 0, 0, 0, 22, 0, 0, 0, 0xcf, 0, 0, 0x10, 0x08, 0, 0, 0, 4, 0, 0, 0, 16]
    );
}

#[test]
fn nv_write_command_carries_only_size_bytes() {
    let mut buf = [0u8; 2048];
    let body = Tpm1CommandBody::NvWrite(tpm1_nv_write_cmd {
        nvIndex: 7,
        offset: 0,
        size: 2,
        data: vec![0xAA, 0xBB, 0xCC],
    });
    let n = tpm_marshal_command(TPM_ORD_NV_WriteValue, &body, &mut buf, 2048);
    assert_eq!(n, 24);
    assert_eq!(&buf[22..24], &[0xAA, 0xBB]);
    assert_eq!(buf[24], 0);
}

#[test]
fn command_that_does_not_fit_is_refused() {
    let mut buf = [0u8; 2048];
    let body = Tpm1CommandBody::NvRead(tpm1_nv_read_cmd { nvIndex: 1, offset: 0, size: 1 });
    assert_eq!(tpm_marshal_command(TPM_ORD_NV_ReadValue, &body, &mut buf, 20), -1);
    assert_eq!(tpm_marshal_command(TPM_ORD_NV_ReadValue, &body, &mut buf, 22), 0);
    assert_eq!(tpm_marshal_command(0x1234, &Tpm1CommandBody::NoBody, &mut buf, 2048), -1);
}

#[test]
fn save_state_has_no_parameters() {
    let mut buf = [0u8; 2048];
    assert_eq!(tpm_marshal_command(TPM_ORD_SaveState, &Tpm1CommandBody::NoBody, &mut buf, 2048), 10);
}

#[test]
fn unmarshal_accepts_header_only_response() {
    let r = response(0x26, &[]);
    let mut parsed = tpm1_response::zeroed();
    assert_eq!(tpm_unmarshal_response(TPM_ORD_ForceClear, &r, r.len() as i32, &mut parsed), 0);
    assert_eq!(parsed.hdr.tpm_tag, 0xc4);
    assert_eq!(parsed.hdr.tpm_size, 10);
    assert_eq!(parsed.hdr.tpm_code, 0x26);
}

#[test]
fn unmarshal_rejects_bad_tag_and_short_response() {
    let mut r = response(0, &[]);
    r[1] = 0xc1;
    let mut parsed = tpm1_response::zeroed();
    assert_eq!(tpm_unmarshal_response(TPM_ORD_ForceClear, &r, 10, &mut parsed), -1);
    assert_eq!(tpm_unmarshal_response(TPM_ORD_ForceClear, &r, 9, &mut parsed), -1);
}

#[test]
fn unmarshal_reads_nv_data() {
    let r = response(0, &[0, 0, 0, 3, 9, 8, 7]);
    let mut parsed = tpm1_response::zeroed();
    assert_eq!(tpm_unmarshal_response(TPM_ORD_NV_ReadValue, &r, r.len() as i32, &mut parsed), 0);
    assert_eq!(parsed.nvr.data_size, 3);
    assert_eq!(&parsed.nvr.data[..3], &[9, 8, 7]);
    let bad = response(0, &[0, 0, 0, 4, 9, 8, 7]);
    assert_eq!(tpm_unmarshal_response(TPM_ORD_NV_ReadValue, &bad, bad.len() as i32, &mut parsed), -1);
}

#[test]
fn force_clear_returns_tpm_code() {
    let sent = RefCell::new(Vec::new());
    let xmit = |req: &[u8], _cap: usize| {
        *sent.borrow_mut() = req.to_vec();
        (0u32, response(0x26, &[]))
    };
    assert_eq!(TlclForceClear(&xmit), 0x26);
    assert_eq!(&sent.borrow()[..], &[0x00, 0xc1, 0, 0, 0, 10, 0, 0, 0, 0x5d]);
}

#[test]
fn transport_failure_is_communication_error() {
    let xmit = |_req: &[u8], _cap: usize| (5u32, Vec::new());
    assert_eq!(TlclForceClear(&xmit), TPM_E_COMMUNICATION_ERROR);
    let too_long = |_req: &[u8], _cap: usize| (0u32, vec![0u8; 2049]);
    assert_eq!(TlclForceClear(&too_long), TPM_E_RESPONSE_TOO_LARGE);
}

#[test]
fn malformed_response_is_read_failure() {
    let xmit = |_req: &[u8], _cap: usize| (0u32, vec![0u8; 4]);
    assert_eq!(tpm_get_response_code(&xmit, TPM_ORD_ForceClear, &Tpm1CommandBody::NoBody), TPM_E_READ_FAILURE);
}

#[test]
fn read_copies_exactly_length_bytes() {
    let xmit = |_req: &[u8], _cap: usize| (0u32, response(0, &[0, 0, 0, 4, 1, 2, 3, 4]));
    let mut out = [0xFFu8; 6];
    assert_eq!(TlclRead(&xmit, 0x1008, &mut out, 4), TPM_SUCCESS);
    assert_eq!(out, [1, 2, 3, 4, 0xFF, 0xFF]);
}

#[test]
fn read_with_offset_sends_offset_and_checks_length() {
    let sent = RefCell::new(Vec::new());
    let xmit = |req: &[u8], _cap: usize| {
        *sent.borrow_mut() = req.to_vec();
        (0u32, response(0, &[0, 0, 0, 2, 1, 2]))
    };
    let mut out = [0u8; 4];
    assert_eq!(TlclReadWithOffset(&xmit, 9, 3, 5, &mut out), TPM_E_RESPONSE_TOO_LARGE);
    assert_eq!(out, [0, 0, 0, 0]);
    assert_eq!(&sent.borrow()[10..22], &[0, 0, 0, 9, 0, 0, 0, 5, 0, 0, 0, 3]);
    assert_eq!(TlclReadWithOffset(&xmit, 9, 1, 5, &mut out), TPM_E_READ_EMPTY);
}

#[test]
fn read_passes_tpm_error_through() {
    let xmit = |_req: &[u8], _cap: usize| (0u32, response(2, &[]));
    let mut out = [7u8; 2];
    assert_eq!(TlclRead(&xmit, 1, &mut out, 2), 2);
    assert_eq!(out, [7, 7]);
}

#[test]
fn write_sends_data() {
    let sent = RefCell::new(Vec::new());
    let xmit = |req: &[u8], _cap: usize| {
        *sent.borrow_mut() = req.to_vec();
        (0u32, response(0, &[]))
    };
    assert_eq!(TlclWrite(&xmit, 3, &[5, 6, 7], 3), TPM_SUCCESS);
    let s = sent.borrow().clone();
    assert_eq!(s.len(), 25);
    assert_eq!(&s[6..10], &[0, 0, 0, 0xcd]);
    assert_eq!(&s[14..18], &[0, 0, 0, 0]);
    assert_eq!(&s[22..25], &[5, 6, 7]);
    assert_eq!(TlclWriteWithOffset(&xmit, 3, &[5, 6, 7], 1, 9), TPM_SUCCESS);
    let s = sent.borrow().clone();
    assert_eq!(&s[14..18], &[0, 0, 0, 9]);
    assert_eq!(s.len(), 23);
}

#[test]
fn startup_family_sends_its_ordinals() {
    let sent = RefCell::new(Vec::new());
    let xmit = |req: &[u8], _cap: usize| {
        sent.borrow_mut().push(req.to_vec());
        (0u32, response(0, &[]))
    };
    assert_eq!(TlclStartup(&xmit), 0);
    assert_eq!(TlclSaveState(&xmit), 0);
    assert_eq!(TlclResume(&xmit), 0);
    assert_eq!(TlclSetEnable(&xmit), 0);
    assert_eq!(TlclAssertPhysicalPresence(&xmit), 0);
    let s = sent.borrow();
    assert_eq!(&s[0][6..12], &[0, 0, 0, 0x99, 0, 1]);
    assert_eq!(&s[1][6..10], &[0, 0, 0, 0x98]);
    assert_eq!(&s[2][6..12], &[0, 0, 0, 0x99, 0, 2]);
    assert_eq!(&s[3][6..10], &[0, 0, 0, 0x6f]);
    assert_eq!(&s[4][6..12], &[0x40, 0, 0, 0x0a, 0, 0x08]);
}

#[test]
fn define_space_without_policy_cannot_be_built() {
    let xmit = |_req: &[u8], _cap: usize| (0u32, response(0, &[]));
    assert_eq!(TlclDefineSpace(&xmit, 1, 2, 3), TPM_E_WRITE_FAILURE);
    assert_eq!(TlclUndefineSpace(&xmit, 1), TPM_E_WRITE_FAILURE);
}

#[test]
fn define_space_refuses_owner_auth() {
    let xmit = |_req: &[u8], _cap: usize| (0u32, response(0, &[]));
    let auth = [0u8; 20];
    assert_eq!(TlclDefineSpaceEx(&xmit, Some(&auth), 19, 1, 0, 0, None, 0), TPM_E_AUTHFAIL);
    assert_eq!(TlclDefineSpaceEx(&xmit, Some(&auth), 20, 1, 0, 0, None, 0), TPM_E_NO_SUCH_COMMAND);
    assert_eq!(TlclUndefineSpaceEx(&xmit, None, 3, 1), TPM_E_AUTHFAIL);
}

#[test]
fn define_space_checks_policy_size() {
    let xmit = |_req: &[u8], _cap: usize| (0u32, response(0, &[]));
    let mut policy = None;
    let mut size = 52u32;
    assert_eq!(TlclInitNvAuthPolicy(0, None, &mut policy, &mut size), TPM_E_BUFFER_SIZE);
    let policy = default_policy();
    assert_eq!(TlclDefineSpaceEx(&xmit, None, 0, 1, 0, 0, Some(&policy), 51), TPM_E_BUFFER_SIZE);
}

#[test]
fn define_space_with_policy_sends_nv_data_public() {
    let sent = RefCell::new(Vec::new());
    let xmit = |req: &[u8], _cap: usize| {
        *sent.borrow_mut() = req.to_vec();
        (0u32, response(0, &[]))
    };
    let policy = default_policy();
    assert_eq!(TlclDefineSpaceEx(&xmit, None, 0, 0x1008, 0x8001, 13, Some(&policy), 52), TPM_SUCCESS);
    let s = sent.borrow().clone();
    assert_eq!(s.len(), 101);
    assert_eq!(&s[0..10], &[0x00, 0xc1, 0, 0, 0, 101, 0, 0, 0, 0xcc]);
    assert_eq!(&s[10..16], &[0x00, 0x18, 0, 0, 0x10, 0x08]);
    assert_eq!(&s[16..22], &[0, 3, 0, 0, 0, 0x17]);
    assert_eq!(&s[22..42], &EMPTY_PCR_SELECTION_SHA1);
    assert_eq!(&s[68..74], &[0x00, 0x17, 0, 0, 0x80, 0x01]);
    assert_eq!(&s[77..81], &[0, 0, 0, 13]);
}

#[test]
fn init_nv_auth_policy_clears_policy() {
    let mut policy = Some(default_policy());
    let mut size = 60u32;
    assert_eq!(TlclInitNvAuthPolicy(0, None, &mut policy, &mut size), TPM_SUCCESS);
    assert_eq!(size, 52);
    let p = policy.unwrap();
    assert_eq!(p.pcr_info_read.localityAtRelease, 0);
    assert_eq!(p.pcr_info_write.digestAtRelease.digest, [0u8; 20]);
}

#[test]
fn encoded_policy_is_fifty_two_bytes() {
    let policy = default_policy();
    let bytes = encode_nv_auth_policy(&policy);
    assert_eq!(bytes.len(), 52);
    assert_eq!(&bytes[0..6], &[0, 3, 0, 0, 0, 0x17]);
    assert_eq!(&bytes[26..32], &[0, 3, 0, 0, 0, 0x17]);
}

#[test]
fn nv_read_public_is_not_a_tpm12_command() {
    let mut presp = [3u8; 2];
    assert_eq!(TlclNVReadPublic(1, &mut presp), TPM_E_NO_SUCH_COMMAND);
    assert_eq!(presp, [3, 3]);
    assert_eq!(TlclGetTPMVersion(), "1.2");
}

#[test]
fn get_space_info_needs_room_for_policy() {
    let xmit = |_req: &[u8], _cap: usize| (0u32, response(0, &[]));
    let (mut attrs, mut size, mut psize) = (0u32, 0u32, 10u32);
    let mut policy = None;
    assert_eq!(TlclGetSpaceInfo(&xmit, 1, &mut attrs, &mut size, &mut policy, &mut psize), TPM_E_BUFFER_SIZE);
    assert_eq!(psize, 52);
}

#[test]
fn get_permissions_rejects_short_capability() {
    let xmit = |_req: &[u8], _cap: usize| (0u32, response(0, &[0, 0, 0, 2, 0, 0]));
    let mut perms = 77u32;
    assert_eq!(TlclGetPermissions(&xmit, 1, &mut perms), TPM_E_INVALID_RESPONSE);
    assert_eq!(perms, 77);
}

fn space_info_params(index: u32, perm: u32, size: u32) -> Vec<u8> {
    let mut block = vec![0x00, 0x18];
    block.extend_from_slice(&index.to_be_bytes());
    for locality in [0x17u8, 0x1f] {
        block.extend_from_slice(&[0, 3, 1, 2, 4, locality]);
        block.extend_from_slice(&[0xAB; 20]);
    }
    block.extend_from_slice(&[0x00, 0x17]);
    block.extend_from_slice(&perm.to_be_bytes());
    block.extend_from_slice(&[0, 0, 0]);
    block.extend_from_slice(&size.to_be_bytes());
    let mut params = (block.len() as u32).to_be_bytes().to_vec();
    params.extend_from_slice(&block);
    params
}

#[test]
fn get_space_info_reads_public_data() {
    let sent = RefCell::new(Vec::new());
    let xmit = |req: &[u8], _cap: usize| {
        *sent.borrow_mut() = req.to_vec();
        (0u32, response(0, &space_info_params(0x1008, 0x8001, 13)))
    };
    let (mut attrs, mut size, mut psize) = (0u32, 0u32, 52u32);
    let mut policy = Some(default_policy());
    assert_eq!(TlclGetSpaceInfo(&xmit, 0x1008, &mut attrs, &mut size, &mut policy, &mut psize), TPM_SUCCESS);
    assert_eq!((attrs, size, psize), (0x8001, 13, 52));
    let p = policy.unwrap();
    assert_eq!(p.pcr_info_read.pcrSelection.pcrSelect, [1, 2, 4]);
    assert_eq!(p.pcr_info_read.localityAtRelease, 0x17);
    assert_eq!(p.pcr_info_write.localityAtRelease, 0x1f);
    assert_eq!(p.pcr_info_write.digestAtRelease.digest, [0xAB; 20]);
    assert_eq!(
        &sent.borrow()[..],
        &[0x00, 0xc1, 0, 0, 0, 22, 0, 0, 0, 0x65, 0, 0, 0, 0x11, 0, 0, 0, 4, 0, 0, 0x10, 0x08]
    );
    let mut perms = 0u32;
    assert_eq!(TlclGetPermissions(&xmit, 0x1008, &mut perms), TPM_SUCCESS);
    assert_eq!(perms, 0x8001);
    assert_eq!(TlclGetPermissions(&xmit, 0x1009, &mut perms), TPM_E_INVALID_RESPONSE);
}

#[test]
fn command_leaves_rest_of_buffer_alone() {
    let mut buf = [0u8; 2048];
    assert_eq!(tpm_marshal_command(TPM_ORD_ForceClear, &Tpm1CommandBody::NoBody, &mut buf, 2048), 10);
    assert!(buf[10..].iter().all(|&b| b == 0));
    let mut buf = [0x55u8; 2048];
    assert_eq!(tpm_marshal_command(TPM_ORD_ForceClear, &Tpm1CommandBody::NoBody, &mut buf, 2048), 10);
    assert!(buf[10..].iter().all(|&b| b == 0x55));
}

#[test]
fn refused_command_writes_nothing() {
    let mut buf = [0x55u8; 2048];
    assert_eq!(tpm_marshal_command(0x1234, &Tpm1CommandBody::NoBody, &mut buf, 2048), -1);
    assert_eq!(tpm_marshal_command(TPM_ORD_NV_ReadValue, &Tpm1CommandBody::NoBody, &mut buf, 2048), -1);
    assert!(buf.iter().all(|&b| b == 0x55));
}

#[test]
fn define_space_without_policy_writes_only_tag_and_index() {
    let mut buf = [0x55u8; 2048];
    let body = Tpm1CommandBody::NvDefineSpace(tpm1_nv_define_space_cmd {
        nvIndex: 0x01020304,
        perm: 1,
        size: 2,
        auth_policy: None,
    });
    assert_eq!(tpm_marshal_command(TPM_ORD_NV_DefineSpace, &body, &mut buf, 2048), -1);
    assert_eq!(&buf[..10], &[0x55; 10]);
    assert_eq!(&buf[10..16], &[0x00, 0x18, 1, 2, 3, 4]);
    assert!(buf[16..].iter().all(|&b| b == 0x55));
}

#[test]
fn body_that_fills_buffer_has_no_header() {
    let mut buf = [0x55u8; 2048];
    let body = Tpm1CommandBody::NvRead(tpm1_nv_read_cmd { nvIndex: 1, offset: 2, size: 3 });
    assert_eq!(tpm_marshal_command(TPM_ORD_NV_ReadValue, &body, &mut buf, 22), 0);
    assert_eq!(&buf[..10], &[0x55; 10]);
    assert_eq!(&buf[10..22], &[0, 0, 0, 1, 0, 0, 0, 2, 0, 0, 0, 3]);
    assert!(buf[22..].iter().all(|&b| b == 0x55));
}

#[test]
fn body_that_does_not_fit_stays_in_room() {
    let mut buf = [0x55u8; 2048];
    let body = Tpm1CommandBody::NvRead(tpm1_nv_read_cmd { nvIndex: 1, offset: 2, size: 3 });
    assert_eq!(tpm_marshal_command(TPM_ORD_NV_ReadValue, &body, &mut buf, 20), -1);
    assert_eq!(&buf[..10], &[0x55; 10]);
    assert_eq!(&buf[10..18], &[0, 0, 0, 1, 0, 0, 0, 2]);
    assert!(buf[18..].iter().all(|&b| b == 0x55));
}

#[test]
fn decode_pcr_info_refuses_cursor_past_end() {
    let data = [0u8; 30];
    let mut cursor = 10usize;
    let mut info = default_policy().pcr_info_read;
    assert!(!decode_pcr_info(&data, &mut cursor, 5, &mut info));
    assert_eq!(cursor, 10);
    assert_eq!(info.localityAtRelease, 0x17);
}

#[test]
fn read_equals_read_with_offset_zero() {
    let xmit = |_req: &[u8], _cap: usize| (0u32, response(0, &[0, 0, 0, 2, 7, 8]));
    let mut a = [0u8; 3];
    let mut b = [0u8; 3];
    assert_eq!(TlclRead(&xmit, 4, &mut a, 2), TlclReadWithOffset(&xmit, 4, 2, 0, &mut b));
    assert_eq!(a, b);
    assert_eq!(a, [7, 8, 0]);
}

#[test]
fn undefine_and_define_ex_match_define() {
    let sent = RefCell::new(Vec::new());
    let xmit = |req: &[u8], _cap: usize| {
        sent.borrow_mut().push(req.to_vec());
        (0u32, response(0x3c, &[]))
    };
    let u = define_space::TlclUndefineSpace(&xmit, 9);
    let ue = define_space::TlclUndefineSpaceEx(&xmit, Some(&[1u8][..]), 9);
    let d = define_space::TlclDefineSpace(&xmit, 9, 0, 0);
    let de = define_space::TlclDefineSpaceEx(&xmit, Some(&[1u8][..]), 9, 0, 0);
    assert_eq!((u, ue, de), (d, d, d));
    assert_eq!(d, 0x3c);
    let s = sent.borrow();
    assert_eq!(s.len(), 4);
    assert!(s.iter().all(|r| *r == s[0]));
    assert_eq!(s[0].len(), 101);
}

#[test]
fn permissions_match_space_info_attributes() {
    let xmit = |_req: &[u8], _cap: usize| (0u32, response(0, &space_info_params(5, 0x2004, 8)));
    let mut perms = 0u32;
    let (mut attrs, mut size, mut psize) = (0u32, 0u32, 52u32);
    let mut policy = Some(default_policy());
    let rc_p = TlclGetPermissions(&xmit, 5, &mut perms);
    let rc_i = TlclGetSpaceInfo(&xmit, 5, &mut attrs, &mut size, &mut policy, &mut psize);
    assert_eq!((rc_p, perms), (rc_i, attrs));
    assert_eq!(perms, 0x2004);
}
