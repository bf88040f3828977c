use libcros::tlcl::commands::stubs;
use libcros::tlcl::constants::TPM_E_NO_SUCH_COMMAND;
use libcros::tlcl::stubs::constants::tpm1_response;
use libcros::tlcl::stubs::constants::tpm_header;
use libcros::tlcl::stubs::marshal::tpm_marshal_command;
use libcros::tlcl::stubs::{TlclGetTPMVersion, tpm_get_response, tpm_get_response_code, tpm_send_receive};

#[test]
fn every_stub_command_is_refused() {
    assert_eq!(stubs::TlclForceClear(), TPM_E_NO_SUCH_COMMAND);
    assert_eq!(stubs::TlclDefineSpace(1, 2, 3), TPM_E_NO_SUCH_COMMAND);
    assert_eq!(stubs::TlclUndefineSpace(1), TPM_E_NO_SUCH_COMMAND);
    assert_eq!(stubs::TlclUndefineSpaceEx(None, 0, 1), TPM_E_NO_SUCH_COMMAND);
    assert_eq!(stubs::TlclDefineSpaceEx(1, 2, 3, None, 0), TPM_E_NO_SUCH_COMMAND);
    assert_eq!(stubs::TlclInitNvAuthPolicy(None, 0), TPM_E_NO_SUCH_COMMAND);
    let (mut a, mut s, mut p) = (1u32, 2u32, 3u32);
    let mut policy = [4u8; 2];
    assert_eq!(stubs::TlclGetSpaceInfo(1, &mut a, &mut s, &mut policy, &mut p), TPM_E_NO_SUCH_COMMAND);
    assert_eq!((a, s, p, policy), (1, 2, 3, [4, 4]));
    let mut perms = 6u32;
    assert_eq!(stubs::TlclGetPermissions(1, &mut perms), TPM_E_NO_SUCH_COMMAND);
    assert_eq!(perms, 6);
    assert_eq!(stubs::TlclPhysicalPresenceCMDEnable(), TPM_E_NO_SUCH_COMMAND);
    assert_eq!(stubs::TlclAssertPhysicalPresence(), TPM_E_NO_SUCH_COMMAND);
    assert_eq!(stubs::TlclSetEnable(), TPM_E_NO_SUCH_COMMAND);
    let mut out = [7u8; 2];
    assert_eq!(stubs::TlclRead(1, &mut out, 2), TPM_E_NO_SUCH_COMMAND);
    assert_eq!(stubs::TlclReadWithOffset(1, 2, 0, &mut out), TPM_E_NO_SUCH_COMMAND);
    assert_eq!(stubs::TlclNVReadPublic(1, &mut out), TPM_E_NO_SUCH_COMMAND);
    assert_eq!(out, [7, 7]);
    assert_eq!(stubs::TlclStartup(), TPM_E_NO_SUCH_COMMAND);
    assert_eq!(stubs::TlclSaveState(), TPM_E_NO_SUCH_COMMAND);
    assert_eq!(stubs::TlclResume(), TPM_E_NO_SUCH_COMMAND);
    assert_eq!(stubs::TlclWrite(1, &[1], 1), TPM_E_NO_SUCH_COMMAND);
    assert_eq!(stubs::TlclWriteWithOffset(1, &[1], 1, 0), TPM_E_NO_SUCH_COMMAND);
}

#[test]
fn stub_round_trip_is_refused() {
    let mut buf = [0u8; 16];
    assert_eq!(tpm_marshal_command(1, &[], &mut buf, 16), -1);
    let mut r = tpm1_response { hdr: tpm_header { tpm_code: 5 } };
    assert_eq!(tpm_get_response(1, &[], &mut r), TPM_E_NO_SUCH_COMMAND);
    assert_eq!(tpm_send_receive(1, &[], &mut r), TPM_E_NO_SUCH_COMMAND);
    assert_eq!(r.hdr.tpm_code, 5);
    assert_eq!(tpm_get_response_code(1, &[]), TPM_E_NO_SUCH_COMMAND);
    assert_eq!(TlclGetTPMVersion(), "No TPM version was specified when compiling libcros.");
}
