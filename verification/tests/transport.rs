use libcros::tlcl::constants::{
    TPM_E_BUFFER_SIZE, TPM_E_COMMUNICATION_ERROR, TPM_E_RESPONSE_TOO_LARGE, TPM_SUCCESS,
};
use libcros::tlcl::unmarshal::{unmarshal_response_code, unmarshal_u16, unmarshal_u32, unmarshal_u8};
use libcros::tlcl::{
    IoErrorKind, IoFailure, XmitAction, XmitEvent, XmitState, XmitStep, should_retry_io, tpm_exchange,
    tpm_xmit_next, tpm_xmit_start, vb2ex_tpm_send_recv,
};

fn ok() -> XmitEvent {
    XmitEvent::Succeeded(Vec::new())
}

fn failed(kind: IoErrorKind, raw: Option<i32>) -> XmitEvent {
    XmitEvent::Failed(IoFailure { kind, raw_os_error: raw })
}

fn header(total: u32) -> XmitEvent {
    let mut h = vec![0x80, 0x01];
    h.extend_from_slice(&total.to_be_bytes());
    h.extend_from_slice(&[0, 0, 0, 0]);
    XmitEvent::Succeeded(h)
}

#[test]
fn retry_policy() {
    assert!(should_retry_io(&IoFailure { kind: IoErrorKind::Interrupted, raw_os_error: None }));
    assert!(should_retry_io(&IoFailure { kind: IoErrorKind::Other, raw_os_error: Some(16) }));
    assert!(!should_retry_io(&IoFailure { kind: IoErrorKind::Other, raw_os_error: Some(2) }));
}

#[test]
fn transfer_goes_through_its_steps() {
    let (st, act) = tpm_xmit_start();
    assert!(matches!(act, XmitAction::Open { after_delay: false }));
    let (st, act) = tpm_xmit_next(&st, &ok(), true, 4096);
    assert!(matches!(act, XmitAction::Write));
    let (st, act) = tpm_xmit_next(&st, &ok(), true, 4096);
    assert!(matches!(act, XmitAction::ReadHeader));
    let (st, act) = tpm_xmit_next(&st, &header(14), true, 4096);
    assert!(matches!(act, XmitAction::ReadBody { total: 14 }));
    let (_st, act) = tpm_xmit_next(&st, &ok(), true, 4096);
    assert!(matches!(act, XmitAction::Finish { rc: 0, recv_len: Some(14) }));
}

#[test]
fn transfer_without_response_stops_after_write() {
    let (st, _) = tpm_xmit_start();
    let (st, _) = tpm_xmit_next(&st, &ok(), false, 0);
    let (_st, act) = tpm_xmit_next(&st, &ok(), false, 0);
    assert!(matches!(act, XmitAction::Finish { rc: TPM_SUCCESS, recv_len: None }));
}

#[test]
fn transfer_rejects_bad_sizes() {
    let st = XmitState { attempt: 0, step: XmitStep::ReadHeader, total: 0 };
    let (_, act) = tpm_xmit_next(&st, &header(9), true, 4096);
    assert!(matches!(act, XmitAction::Finish { rc: TPM_E_COMMUNICATION_ERROR, recv_len: None }));
    let (_, act) = tpm_xmit_next(&st, &header(5000), true, 4096);
    assert!(matches!(act, XmitAction::Finish { rc: TPM_E_RESPONSE_TOO_LARGE, recv_len: Some(5000) }));
    let st = XmitState { attempt: 0, step: XmitStep::Write, total: 0 };
    let (_, act) = tpm_xmit_next(&st, &ok(), true, 9);
    assert!(matches!(act, XmitAction::Finish { rc: TPM_E_RESPONSE_TOO_LARGE, recv_len: None }));
}

#[test]
fn transfer_retries_then_gives_up() {
    let (mut st, _) = tpm_xmit_start();
    for attempt in 1..5u32 {
        let (next, act) = tpm_xmit_next(&st, &failed(IoErrorKind::WouldBlock, None), true, 4096);
        assert!(matches!(act, XmitAction::Open { after_delay: true }));
        assert_eq!(next.attempt, attempt);
        st = next;
    }
    let (_, act) = tpm_xmit_next(&st, &failed(IoErrorKind::WouldBlock, None), true, 4096);
    assert!(matches!(act, XmitAction::Finish { rc: TPM_E_COMMUNICATION_ERROR, recv_len: None }));
    let (st, _) = tpm_xmit_start();
    let (_, act) = tpm_xmit_next(&st, &failed(IoErrorKind::Other, None), true, 4096);
    assert!(matches!(act, XmitAction::Finish { rc: TPM_E_COMMUNICATION_ERROR, recv_len: None }));
}

#[test]
fn send_recv_reports_length() {
    let xmit = |req: &[u8], _cap: usize| (0u32, req.to_vec());
    let mut response = Vec::new();
    let mut len = 16u32;
    assert_eq!(vb2ex_tpm_send_recv(&xmit, &[1, 2, 3], &mut response, &mut len), TPM_SUCCESS);
    assert_eq!(response, vec![1, 2, 3]);
    assert_eq!(len, 3);
    let mut len = 2u32;
    let mut response = vec![9];
    assert_eq!(vb2ex_tpm_send_recv(&xmit, &[1, 2, 3], &mut response, &mut len), TPM_E_RESPONSE_TOO_LARGE);
    assert_eq!((response, len), (vec![9], 2));
    let failing = |_req: &[u8], _cap: usize| (7u32, Vec::new());
    let mut len = 16u32;
    assert_eq!(vb2ex_tpm_send_recv(&failing, &[1], &mut Vec::new(), &mut len), TPM_E_COMMUNICATION_ERROR);
}

#[test]
fn exchange_sends_announced_length() {
    let xmit = |req: &[u8], _cap: usize| (0u32, req.to_vec());
    let mut cmd = [0u8; 512];
    cmd[2..6].copy_from_slice(&12u32.to_be_bytes());
    cmd[6..10].copy_from_slice(&0x0102_0304u32.to_be_bytes());
    cmd[11] = 0xEE;
    cmd[12] = 0xFF;
    let mut resp = [0u8; 4096];
    assert_eq!(tpm_exchange(&xmit, &cmd, &mut resp), Ok(12));
    assert_eq!(&resp[..12], &cmd[..12]);
    assert_eq!(resp[12], 0);
    assert_eq!(unmarshal_response_code(&resp), 0x01020304);
    cmd[2..6].copy_from_slice(&513u32.to_be_bytes());
    assert_eq!(tpm_exchange(&xmit, &cmd, &mut resp), Err(TPM_E_BUFFER_SIZE));
}

#[test]
fn receive_buffer_readers() {
    let mut buf = [0u8; 4096];
    buf[0] = 0x80;
    buf[1] = 0x02;
    buf[2..6].copy_from_slice(&10u32.to_be_bytes());
    buf[10] = 0x7f;
    let mut at = 0usize;
    assert_eq!(unmarshal_u16(&buf, &mut at), 0x8002);
    assert_eq!(unmarshal_u32(&buf, &mut at), 10);
    assert_eq!(at, 6);
    let mut at = 10usize;
    assert_eq!(unmarshal_u8(&buf, &mut at), 0x7f);
    assert_eq!(at, 11);
}
