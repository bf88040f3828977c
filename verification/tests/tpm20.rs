use std::cell::RefCell;

use libcros::tlcl::commands::tpm20::define_space;
use libcros::tlcl::commands::tpm20::{
    TlclAssertPhysicalPresence, TlclDefineSpace, TlclDefineSpaceEx, TlclForceClear, TlclGetPermissions,
    TlclGetSpaceInfo, TlclInitNvAuthPolicy, TlclNVReadPublic, TlclPhysicalPresenceCMDEnable, TlclRead,
    TlclReadWithOffset, TlclResume, TlclSaveState, TlclSetEnable, TlclStartup, TlclUndefineSpace,
    TlclUndefineSpaceEx, TlclWrite, TlclWriteWithOffset,
};
use libcros::tlcl::constants::{TPM_E_READ_FAILURE, TPM_E_WRITE_FAILURE, TPM_SUCCESS};
use libcros::tlcl::tpm20::constants::{
    TPM2_Clear, TPM2_NV_Read, TPM2_NV_ReadPublic, TPM2_NV_Write, TPM2_Startup, Tpm2CommandBody,
    nv_read_public_response, tpm2_response, tpm2_response_body,
};
use libcros::tlcl::tpm20::marshal::tpm_marshal_command;
use libcros::tlcl::tpm20::unmarshal::{tpm_unmarshal_response, unmarshal_TPM2B};
use libcros::tlcl::tpm20::constants::TPM2B;
use libcros::tlcl::tpm20::{TlclGetTPMVersion, tpm_get_response_code};
use libcros::tlcl::v2_0::Client;

fn response(tag: u16, code: u32, params: &[u8]) -> Vec<u8> {
    let size = 10 + params.len() as u32;
    let mut r = tag.to_be_bytes().to_vec();
    r.extend_from_slice(&size.to_be_bytes());
    r.extend_from_slice(&code.to_be_bytes());
    r.extend_from_slice(params);
    r
}

const CLEAR_COMMAND: [u8; 27] = [
    0x80, 0x02, 0, 0, 0, 27, 0, 0, 0x01, 0x26, 0x40, 0, 0, 0x0c, 0, 0, 0, 9, 0x40, 0, 0, 0x09, 0, 0, 0,
    0, 0,
];

#[test]
fn clear_command_bytes() {
    let mut buf = [0u8; 2048];
    let n = tpm_marshal_command(TPM2_Clear, &Tpm2CommandBody::NoBody, &mut buf, 2048);
    assert_eq!(n, 27);
    assert_eq!(&buf[..27], &CLEAR_COMMAND);
}

#[test]
fn only_clear_is_built() {
    let mut buf = [0u8; 2048];
    assert_eq!(tpm_marshal_command(TPM2_Startup, &Tpm2CommandBody::NoBody, &mut buf, 2048), -1);
    assert_eq!(tpm_marshal_command(TPM2_NV_Read, &Tpm2CommandBody::NoBody, &mut buf, 2048), -1);
    assert_eq!(tpm_marshal_command(TPM2_Clear, &Tpm2CommandBody::NoBody, &mut buf, 20), -1);
    assert_eq!(tpm_marshal_command(TPM2_Clear, &Tpm2CommandBody::NoBody, &mut buf, 27), 0);
}

#[test]
fn force_clear_round_trip() {
    let sent = RefCell::new(Vec::new());
    let xmit = |req: &[u8], _cap: usize| {
        *sent.borrow_mut() = req.to_vec();
        (0u32, response(0x8001, 0x14c, &[]))
    };
    assert_eq!(TlclForceClear(&xmit), 0x14c);
    assert_eq!(&sent.borrow()[..], &CLEAR_COMMAND);
    let bad_tag = |_req: &[u8], _cap: usize| (0u32, response(0x00c4, 0, &[]));
    assert_eq!(TlclForceClear(&bad_tag), TPM_E_READ_FAILURE);
    let with_sessions = |_req: &[u8], _cap: usize| (0u32, response(0x8002, 0, &[0, 0, 1, 0, 0]));
    assert_eq!(tpm_get_response_code(&with_sessions, TPM2_Clear, &Tpm2CommandBody::NoBody), TPM_SUCCESS);
}

#[test]
fn unbuilt_commands_fail_without_sending() {
    let calls = RefCell::new(0u32);
    let xmit = |_req: &[u8], _cap: usize| {
        *calls.borrow_mut() += 1;
        (0u32, response(0x8001, 0, &[]))
    };
    assert_eq!(TlclStartup(&xmit), TPM_E_WRITE_FAILURE);
    assert_eq!(TlclSaveState(&xmit), TPM_E_WRITE_FAILURE);
    assert_eq!(TlclResume(&xmit), TPM_E_WRITE_FAILURE);
    assert_eq!(TlclWrite(&xmit, 1, &[1, 2], 2), TPM_E_WRITE_FAILURE);
    assert_eq!(TlclWriteWithOffset(&xmit, 1, &[1, 2], 2, 7), TPM_E_WRITE_FAILURE);
    assert_eq!(TlclDefineSpace(&xmit, 1, 0, 8), TPM_E_WRITE_FAILURE);
    assert_eq!(TlclDefineSpaceEx(&xmit, Some(&[1u8, 2][..]), 2, 1, 0, 8, None, 0), TPM_E_WRITE_FAILURE);
    assert_eq!(TlclUndefineSpace(&xmit, 1), TPM_E_WRITE_FAILURE);
    assert_eq!(TlclUndefineSpaceEx(&xmit, None, 0, 1), TPM_E_WRITE_FAILURE);
    let mut out = [9u8; 4];
    assert_eq!(TlclRead(&xmit, 1, &mut out, 4), TPM_E_WRITE_FAILURE);
    assert_eq!(TlclReadWithOffset(&xmit, 1, 2, 1, &mut out), TPM_E_WRITE_FAILURE);
    assert_eq!(out, [9, 9, 9, 9]);
    let mut perms = 5u32;
    assert_eq!(TlclGetPermissions(&xmit, 1, &mut perms), TPM_E_WRITE_FAILURE);
    assert_eq!(perms, 5);
    let mut public = nv_read_public_response::zeroed();
    assert_eq!(TlclNVReadPublic(&xmit, 1, &mut public), TPM_E_WRITE_FAILURE);
    let (mut attrs, mut size, mut psize) = (1u32, 2u32, 3u32);
    let mut policy = Some(vec![0u8; 4]);
    assert_eq!(TlclGetSpaceInfo(&xmit, 1, &mut attrs, &mut size, &mut policy, &mut psize), TPM_E_WRITE_FAILURE);
    assert_eq!((attrs, size, psize), (1, 2, 3));
    assert_eq!(*calls.borrow(), 0);
}

#[test]
fn physical_presence_is_a_no_op() {
    assert_eq!(TlclPhysicalPresenceCMDEnable(), TPM_SUCCESS);
    assert_eq!(TlclAssertPhysicalPresence(), TPM_SUCCESS);
    assert_eq!(TlclSetEnable(), TPM_SUCCESS);
    let mut policy = [1u8; 3];
    let mut size = 9u32;
    assert_eq!(TlclInitNvAuthPolicy(0, None, &mut policy, &mut size), TPM_SUCCESS);
    assert_eq!(size, 0);
    assert_eq!(TlclGetTPMVersion(), "2.0");
}

#[test]
fn unmarshal_nv_read_response() {
    let params = [0, 0, 0, 5, 0, 3, 1, 2, 3, 0, 0, 1, 0, 0];
    let r = response(0x8002, 0, &params);
    let mut parsed = tpm2_response::zeroed();
    assert_eq!(tpm_unmarshal_response(TPM2_NV_Read, &r, r.len() as i32, &mut parsed), 0);
    assert_eq!(parsed.hdr.tpm_size, 24);
    match parsed.body {
        tpm2_response_body::Nvr(n) => {
            assert_eq!(n.params_size, 5);
            assert_eq!(n.buffer.size, 3);
            assert_eq!(n.buffer.buffer, vec![1, 2, 3]);
        },
        _ => panic!("no NV_Read result"),
    }
    let bad = response(0x8002, 0, &[0, 0, 0, 9, 0, 3, 1, 2, 3, 7]);
    let mut parsed = tpm2_response::zeroed();
    assert_eq!(tpm_unmarshal_response(TPM2_NV_Read, &bad, bad.len() as i32, &mut parsed), -1);
    let exact = response(0x8001, 0, &[0, 0, 0, 9, 0, 3, 1, 2, 3]);
    assert_eq!(tpm_unmarshal_response(TPM2_NV_Read, &exact, exact.len() as i32, &mut parsed), 0);
}

#[test]
fn unmarshal_nv_read_public_response() {
    let params = [
        0, 14, 0x01, 0, 0, 0x08, 0, 0x0b, 0x40, 0x04, 0, 0x04, 0, 0, 0, 16, 0, 2, 0xab, 0xcd,
    ];
    let r = response(0x8001, 0, &params);
    let mut parsed = tpm2_response::zeroed();
    assert_eq!(tpm_unmarshal_response(TPM2_NV_ReadPublic, &r, r.len() as i32, &mut parsed), 0);
    match parsed.body {
        tpm2_response_body::NvReadPublic(p) => {
            assert_eq!(p.nvPublic.nvIndex, 0x01000008);
            assert_eq!(p.nvPublic.nameAlg, 0x000b);
            assert_eq!(p.nvPublic.attributes, 0x40040004);
            assert_eq!(p.nvPublic.authPolicy.size, 0);
            assert_eq!(p.nvPublic.dataSize, 16);
            assert_eq!(p.nvName.buffer, vec![0xab, 0xcd]);
        },
        _ => panic!("no NV_ReadPublic result"),
    }
    let mut trailing = r.clone();
    trailing.push(0);
    let mut parsed = tpm2_response::zeroed();
    assert_eq!(tpm_unmarshal_response(TPM2_NV_ReadPublic, &trailing, trailing.len() as i32, &mut parsed), -1);
    match parsed.body {
        tpm2_response_body::NvReadPublic(p) => assert_eq!(p.nvPublic.nvIndex, 0),
        _ => panic!("no NV_ReadPublic result"),
    }
}

#[test]
fn unmarshal_rejects_unknown_command_with_parameters() {
    let r = response(0x8001, 0, &[1]);
    let mut parsed = tpm2_response::zeroed();
    assert_eq!(tpm_unmarshal_response(TPM2_Startup, &r, r.len() as i32, &mut parsed), -1);
    assert_eq!(tpm_unmarshal_response(TPM2_NV_Write, &r, r.len() as i32, &mut parsed), 0);
    let short = response(0x8001, 0, &[]);
    assert_eq!(tpm_unmarshal_response(TPM2_Startup, &short, 9, &mut parsed), -1);
}

#[test]
fn tpm2b_that_does_not_fit_is_empty() {
    let buf = [0u8, 5, 1, 2];
    let mut at = 0usize;
    let mut size = 4i32;
    let mut t = TPM2B::empty();
    unmarshal_TPM2B(&buf, &mut at, &mut size, &mut t);
    assert_eq!(size, -1);
    assert_eq!(t.size, 0);
    let mut at = 0usize;
    let mut size = 4i32;
    let buf = [0u8, 2, 1, 2];
    unmarshal_TPM2B(&buf, &mut at, &mut size, &mut t);
    assert_eq!((size, at, t.size), (0, 4, 2));
    assert_eq!(t.buffer, vec![1, 2]);
}

#[test]
fn hand_built_define_space() {
    let sent = RefCell::new(Vec::new());
    let xmit = |req: &[u8], cap: usize| {
        assert_eq!(cap, 4096);
        *sent.borrow_mut() = req.to_vec();
        (0u32, response(0x8002, 0x14c, &[]))
    };
    assert_eq!(define_space::TlclDefineSpace(&xmit, 8, 0, 0x10010), 0x14c);
    let expected: Vec<u8> = vec![
        0x80, 0x02, 0, 0, 0, 45, 0, 0, 0x01, 0x2a, 0x40, 0, 0, 0x01, 0, 0, 0, 9, 0x40, 0, 0, 0x09, 0,
        0, 0, 0, 0, 0, 0, 0, 14, 0x01, 0, 0, 0x08, 0, 0x0b, 0, 0x04, 0, 0x04, 0, 0, 0, 0x10,
    ];
    assert_eq!(*sent.borrow(), expected);
    assert_eq!(
        define_space::TlclDefineSpaceEx(&xmit, None, 8, 0x40000000, 2, Some(&[1u8][..])),
        0x14c
    );
    let s = sent.borrow().clone();
    assert_eq!(&s[10..14], &[0x40, 0, 0, 0x0c]);
    assert_eq!(&s[37..41], &[0x40, 0x01, 0, 0x01]);
    let failing = |_req: &[u8], _cap: usize| (1u32, Vec::new());
    assert_eq!(define_space::TlclDefineSpace(&failing, 8, 0, 1), 0xFFFFFFFF);
}

#[test]
fn hand_built_undefine_space() {
    let sent = RefCell::new(Vec::new());
    let xmit = |req: &[u8], _cap: usize| {
        sent.borrow_mut().push(req.to_vec());
        (0u32, response(0x8001, 0, &[]))
    };
    assert_eq!(define_space::TlclUndefineSpace(&xmit, 3), 0);
    let s = sent.borrow();
    assert_eq!(s.len(), 1);
    let expected: Vec<u8> = vec![
        0x80, 0x02, 0, 0, 0, 31, 0, 0, 0x01, 0x22, 0x40, 0, 0, 0x01, 0x01, 0, 0, 0x03, 0, 0, 0, 9, 0x40,
        0, 0, 0x09, 0, 0, 0, 0, 0,
    ];
    assert_eq!(s[0], expected);
}

#[test]
fn client_delegates_to_commands() {
    let client = Client::new(|_req: &[u8], _cap: usize| (0u32, response(0x8001, 0x101, &[])));
    assert_eq!(client.force_clear(), 0x101);
    assert_eq!(client.startup(), TPM_E_WRITE_FAILURE);
    assert_eq!(client.set_enable(), TPM_SUCCESS);
    let mut perms = 0u32;
    assert_eq!(client.get_permissions(2, &mut perms), TPM_E_WRITE_FAILURE);
}

#[test]
fn write_request_names_nv_write() {
    let _ = TPM2_NV_Write;
    let xmit = |_req: &[u8], _cap: usize| (0u32, response(0x8001, 0, &[]));
    assert_eq!(TlclWrite(&xmit, 0, &[], 0), TPM_E_WRITE_FAILURE);
}

#[test]
fn clear_command_leaves_rest_of_buffer_alone() {
    let mut buf = [0x55u8; 2048];
    assert_eq!(tpm_marshal_command(TPM2_Clear, &Tpm2CommandBody::NoBody, &mut buf, 2048), 27);
    assert_eq!(&buf[..27], &CLEAR_COMMAND);
    assert!(buf[27..].iter().all(|&b| b == 0x55));
    let mut buf = [0x55u8; 2048];
    assert_eq!(tpm_marshal_command(TPM2_Startup, &Tpm2CommandBody::NoBody, &mut buf, 2048), -1);
    assert!(buf.iter().all(|&b| b == 0x55));
}

#[test]
fn clear_that_does_not_fit_stays_in_room() {
    let mut buf = [0x55u8; 2048];
    assert_eq!(tpm_marshal_command(TPM2_Clear, &Tpm2CommandBody::NoBody, &mut buf, 20), -1);
    assert_eq!(&buf[..10], &[0x55; 10]);
    assert_eq!(&buf[10..14], &[0x40, 0, 0, 0x0c]);
    assert!(buf[20..].iter().all(|&b| b == 0x55));
    for (j, b) in buf[10..20].iter().enumerate() {
        assert!(*b == 0x55 || *b == CLEAR_COMMAND[10 + j]);
    }
}

#[test]
fn client_define_space_ex_matches_command() {
    let xmit = |_req: &[u8], _cap: usize| (0u32, response(0x8001, 0, &[]));
    let client = Client::new(xmit);
    assert_eq!(
        client.define_space_ex(None, 0, 3, 0, 8, None, 0),
        TlclDefineSpaceEx(&xmit, None, 0, 3, 0, 8, None, 0)
    );
}
