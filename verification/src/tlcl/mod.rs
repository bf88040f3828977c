//! The TPM command layer.
//!
//! Commands reach the device through a transport: a function that takes a
//! request and the number of response bytes the caller can take, and
//! returns a return code with the response.  Nothing is assumed of what a
//! transport answers; every contract below holds whatever it returns.
pub mod bytes;
pub mod commands;
pub mod constants;
pub mod marshal;
pub mod structs;
pub mod stubs;
pub mod tpm12;
pub mod tpm20;
pub mod unmarshal;
pub mod v1_2;
pub mod v2_0;

use vstd::prelude::*;

use crate::tlcl::bytes::{be32_at, overwrite, read_be32};
use crate::tlcl::constants::{
    TPM_E_BUFFER_SIZE, TPM_E_COMMUNICATION_ERROR, TPM_E_RESPONSE_TOO_LARGE, TPM_SUCCESS,
};

verus! {

/// How many times the device is tried before a transfer gives up.
pub const TPM_MAX_RETRIES: u32 = 5;

/// The pause, in milliseconds, before a transfer is tried again.
pub const TPM_RETRY_DELAY_MS: u64 = 100;

/// Size of the header that opens every TPM response.
pub const TPM_HEADER_SIZE: usize = 10;

/// The transport accepts any request.
pub open spec fn transport_ready<X: Fn(&[u8], usize) -> (u32, Vec<u8>)>(xmit: X) -> bool {
    forall|s: &[u8], n: usize| call_requires(xmit, (s, n))
}

/// `reply` is something the transport may answer when handed the bytes
/// `request` and room for `capacity` response bytes.
pub open spec fn exchanged<X: Fn(&[u8], usize) -> (u32, Vec<u8>)>(
    xmit: X,
    request: Seq<u8>,
    capacity: usize,
    reply: (u32, Vec<u8>),
) -> bool {
    exists|s: &[u8]| s@ == request && #[trigger] call_ensures(xmit, (s, capacity), reply)
}

/// The transport answers alike: the same request bytes with the same room
/// always get the same reply.
pub open spec fn answers_alike<X: Fn(&[u8], usize) -> (u32, Vec<u8>)>(xmit: X) -> bool {
    forall|s1: &[u8], s2: &[u8], n: usize, r1: (u32, Vec<u8>), r2: (u32, Vec<u8>)|
        #![trigger call_ensures(xmit, (s1, n), r1), call_ensures(xmit, (s2, n), r2)]
        s1@ == s2@ && call_ensures(xmit, (s1, n), r1) && call_ensures(xmit, (s2, n), r2) ==> r1
            == r2
}

/// On a transport that answers alike, a request has one reply.
pub proof fn lemma_exchanged_unique<X: Fn(&[u8], usize) -> (u32, Vec<u8>)>(
    xmit: X,
    request: Seq<u8>,
    capacity: usize,
    r1: (u32, Vec<u8>),
    r2: (u32, Vec<u8>),
)
    requires
        answers_alike(xmit),
        exchanged(xmit, request, capacity, r1),
        exchanged(xmit, request, capacity, r2),
    ensures
        r1 == r2,
{
    let s1 = choose|s: &[u8]| s@ == request && #[trigger] call_ensures(xmit, (s, capacity), r1);
    let s2 = choose|s: &[u8]| s@ == request && #[trigger] call_ensures(xmit, (s, capacity), r2);
    assert(call_ensures(xmit, (s1, capacity), r1) && call_ensures(xmit, (s2, capacity), r2));
}

/// The return code of `vb2ex_tpm_send_recv` for the transport's `reply`: a
/// failed transfer is a communication error, a response longer than the
/// room is too large.
pub open spec fn send_recv_rc(reply: (u32, Vec<u8>), capacity: u32) -> u32 {
    if reply.0 != TPM_SUCCESS {
        TPM_E_COMMUNICATION_ERROR
    } else if reply.1@.len() > capacity {
        TPM_E_RESPONSE_TOO_LARGE
    } else {
        TPM_SUCCESS
    }
}

/// Sends `request` and receives the response into `response`; on entry
/// `response_length` is the room for the response, on success it is the
/// response's length.  On failure both are left as they were.
pub fn vb2ex_tpm_send_recv<X: Fn(&[u8], usize) -> (u32, Vec<u8>)>(
    xmit: &X,
    request: &[u8],
    response: &mut Vec<u8>,
    response_length: &mut u32,
) -> (rc: u32)
    requires
        transport_ready(*xmit),
    ensures
        exists|reply: (u32, Vec<u8>)|
            {
                &&& #[trigger] exchanged(*xmit, request@, *old(response_length) as usize, reply)
                &&& rc == send_recv_rc(reply, *old(response_length))
                &&& rc == TPM_SUCCESS ==> final(response)@ == reply.1@ && *final(response_length)
                    == reply.1@.len()
            },
        rc != TPM_SUCCESS ==> *final(response) == *old(response) && *final(response_length)
            == *old(response_length),
{
    let capacity = *response_length;
    let reply = xmit(request, capacity as usize);
    let ghost r = reply;
    assert(exchanged(*xmit, request@, capacity as usize, r));
    if reply.0 != TPM_SUCCESS {
        return TPM_E_COMMUNICATION_ERROR;
    }
    if reply.1.len() > capacity as usize {
        return TPM_E_RESPONSE_TOO_LARGE;
    }
    *response_length = reply.1.len() as u32;
    *response = reply.1;
    TPM_SUCCESS
}

/// The kinds of device error that decide whether a transfer is tried again.
pub enum IoErrorKind {
    PermissionDenied,
    WouldBlock,
    Interrupted,
    Other,
}

/// A failed device operation: its kind and the operating system's code.
pub struct IoFailure {
    pub kind: IoErrorKind,
    pub raw_os_error: Option<i32>,
}

/// The operating-system code for a busy device.
pub const EBUSY: i32 = 16;

/// A failure worth another try: the device was busy, would block, was
/// interrupted or refused access for now.
pub open spec fn retryable(err: IoFailure) -> bool {
    ||| err.kind is PermissionDenied
    ||| err.kind is WouldBlock
    ||| err.kind is Interrupted
    ||| err.raw_os_error == Some(EBUSY)
}

/// Whether a failed device operation should be tried again.
pub fn should_retry_io(err: &IoFailure) -> (r: bool)
    ensures
        r == retryable(*err),
{
    let kind_retries = match err.kind {
        IoErrorKind::PermissionDenied => true,
        IoErrorKind::WouldBlock => true,
        IoErrorKind::Interrupted => true,
        IoErrorKind::Other => false,
    };
    kind_retries || match err.raw_os_error {
        Some(code) => code == EBUSY,
        None => false,
    }
}

/// The step of a transfer that is under way.
pub enum XmitStep {
    Open,
    Write,
    ReadHeader,
    ReadBody,
}

/// A transfer in progress: the attempt (from 0), its current step, and,
/// once the header is in, the response's announced total size.
pub struct XmitState {
    pub attempt: u32,
    pub step: XmitStep,
    pub total: usize,
}

/// What happened to the step the transfer asked for.  `Succeeded` carries
/// the ten header bytes after a header read and nothing otherwise.
pub enum XmitEvent {
    Succeeded(Vec<u8>),
    Failed(IoFailure),
}

/// What the device driver is to do next.
pub enum XmitAction {
    /// Open the device, after the retry pause when `after_delay`.
    Open { after_delay: bool },
    /// Write the whole request.
    Write,
    /// Read the ten-byte response header.
    ReadHeader,
    /// Read the response up to byte `total`, the header being in already.
    ReadBody { total: usize },
    /// Stop with `rc`; `recv_len` is the length to report, if any.
    Finish { rc: u32, recv_len: Option<usize> },
}

/// A state that the transfer can be in: fewer attempts than allowed, and
/// a body is only read after a header announced one of at least ten bytes.
pub open spec fn xmit_state_ok(state: XmitState) -> bool {
    &&& state.attempt < TPM_MAX_RETRIES
    &&& state.step is ReadBody ==> state.total >= TPM_HEADER_SIZE
}

/// Starts a transfer: open the device, first attempt.
pub fn tpm_xmit_start() -> (r: (XmitState, XmitAction))
    ensures
        r.0.attempt == 0,
        r.0.step is Open,
        r.1 == (XmitAction::Open { after_delay: false }),
        xmit_state_ok(r.0),
{
    (XmitState { attempt: 0, step: XmitStep::Open, total: 0 }, XmitAction::Open { after_delay: false })
}

/// After a failure: try again from the start, after a pause, while the
/// failure is worth it and attempts remain; else give up.
pub open spec fn xmit_after_failure(state: XmitState, err: IoFailure) -> (XmitState, XmitAction) {
    if retryable(err) && state.attempt + 1 < TPM_MAX_RETRIES {
        (
            XmitState { attempt: (state.attempt + 1) as u32, step: XmitStep::Open, total: 0 },
            XmitAction::Open { after_delay: true },
        )
    } else {
        (state, XmitAction::Finish { rc: TPM_E_COMMUNICATION_ERROR, recv_len: None })
    }
}

fn xmit_failed(state: &XmitState, err: &IoFailure) -> (r: (XmitState, XmitAction))
    requires
        xmit_state_ok(*state),
    ensures
        r == xmit_after_failure(*state, *err),
        xmit_state_ok(r.0),
{
    if should_retry_io(err) && state.attempt + 1 < TPM_MAX_RETRIES {
        (
            XmitState { attempt: state.attempt + 1, step: XmitStep::Open, total: 0 },
            XmitAction::Open { after_delay: true },
        )
    } else {
        let st = XmitState { attempt: state.attempt, step: copy_step(&state.step), total: state.total };
        (st, XmitAction::Finish { rc: TPM_E_COMMUNICATION_ERROR, recv_len: None })
    }
}

fn copy_step(step: &XmitStep) -> (r: XmitStep)
    ensures
        r == *step,
{
    match step {
        XmitStep::Open => XmitStep::Open,
        XmitStep::Write => XmitStep::Write,
        XmitStep::ReadHeader => XmitStep::ReadHeader,
        XmitStep::ReadBody => XmitStep::ReadBody,
    }
}

/// The next move of a transfer after `event`.  `want_response` is false
/// when no response is expected; `recv_cap` is the room for the response.
pub open spec fn xmit_next(
    state: XmitState,
    event: XmitEvent,
    want_response: bool,
    recv_cap: usize,
) -> (XmitState, XmitAction) {
    match event {
        XmitEvent::Failed(err) => xmit_after_failure(state, err),
        XmitEvent::Succeeded(header) => match state.step {
            XmitStep::Open => (
                XmitState { step: XmitStep::Write, ..state },
                XmitAction::Write,
            ),
            XmitStep::Write => if !want_response {
                (state, XmitAction::Finish { rc: TPM_SUCCESS, recv_len: None })
            } else if recv_cap < TPM_HEADER_SIZE {
                (state, XmitAction::Finish { rc: TPM_E_RESPONSE_TOO_LARGE, recv_len: None })
            } else {
                (XmitState { step: XmitStep::ReadHeader, ..state }, XmitAction::ReadHeader)
            },
            XmitStep::ReadHeader => {
                let total = be32_at(header@, 2) as usize;
                if total < TPM_HEADER_SIZE {
                    (state, XmitAction::Finish { rc: TPM_E_COMMUNICATION_ERROR, recv_len: None })
                } else if total > recv_cap {
                    (state, XmitAction::Finish { rc: TPM_E_RESPONSE_TOO_LARGE, recv_len: Some(total) })
                } else {
                    (
                        XmitState { step: XmitStep::ReadBody, total, ..state },
                        XmitAction::ReadBody { total },
                    )
                }
            },
            XmitStep::ReadBody => (
                state,
                XmitAction::Finish { rc: TPM_SUCCESS, recv_len: Some(state.total) },
            ),
        },
    }
}

/// Decides the next move of a transfer after `event` (see `xmit_next`).
pub fn tpm_xmit_next(
    state: &XmitState,
    event: &XmitEvent,
    want_response: bool,
    recv_cap: usize,
) -> (r: (XmitState, XmitAction))
    requires
        xmit_state_ok(*state),
        state.step is ReadHeader ==> (event matches XmitEvent::Succeeded(h) ==> h@.len() == 10),
    ensures
        r == xmit_next(*state, *event, want_response, recv_cap),
        xmit_state_ok(r.0),
{
    match event {
        XmitEvent::Failed(err) => xmit_failed(state, err),
        XmitEvent::Succeeded(header) => match state.step {
            XmitStep::Open => (
                XmitState { attempt: state.attempt, step: XmitStep::Write, total: state.total },
                XmitAction::Write,
            ),
            XmitStep::Write => {
                let st = XmitState { attempt: state.attempt, step: XmitStep::Write, total: state.total };
                if !want_response {
                    (st, XmitAction::Finish { rc: TPM_SUCCESS, recv_len: None })
                } else if recv_cap < TPM_HEADER_SIZE {
                    (st, XmitAction::Finish { rc: TPM_E_RESPONSE_TOO_LARGE, recv_len: None })
                } else {
                    (
                        XmitState { attempt: state.attempt, step: XmitStep::ReadHeader, total: state.total },
                        XmitAction::ReadHeader,
                    )
                }
            },
            XmitStep::ReadHeader => {
                let st = XmitState { attempt: state.attempt, step: XmitStep::ReadHeader, total: state.total };
                let total = read_be32(header.as_slice(), 2) as usize;
                if total < TPM_HEADER_SIZE {
                    (st, XmitAction::Finish { rc: TPM_E_COMMUNICATION_ERROR, recv_len: None })
                } else if total > recv_cap {
                    (st, XmitAction::Finish { rc: TPM_E_RESPONSE_TOO_LARGE, recv_len: Some(total) })
                } else {
                    (
                        XmitState { attempt: state.attempt, step: XmitStep::ReadBody, total },
                        XmitAction::ReadBody { total },
                    )
                }
            },
            XmitStep::ReadBody => {
                let st = XmitState { attempt: state.attempt, step: XmitStep::ReadBody, total: state.total };
                (st, XmitAction::Finish { rc: TPM_SUCCESS, recv_len: Some(state.total) })
            },
        },
    }
}

/// Every transfer ends in success, a communication error or a response
/// too large for the room, and a successful transfer with a response
/// reports a length between the header size and the room.
pub proof fn lemma_xmit_outcomes(state: XmitState, event: XmitEvent, want_response: bool, recv_cap: usize)
    requires
        xmit_state_ok(state),
        state.step is ReadBody ==> state.total <= recv_cap,
    ensures
        ({
            let (next, action) = xmit_next(state, event, want_response, recv_cap);
            &&& xmit_state_ok(next)
            &&& next.step is ReadBody ==> next.total <= recv_cap
            &&& action matches XmitAction::Finish { rc, recv_len } ==> {
                &&& rc == TPM_SUCCESS || rc == TPM_E_COMMUNICATION_ERROR || rc == TPM_E_RESPONSE_TOO_LARGE
                &&& rc == TPM_SUCCESS && recv_len is Some ==> TPM_HEADER_SIZE <= recv_len->0 <= recv_cap
            }
            &&& action matches XmitAction::Open { after_delay } ==> after_delay && next.attempt == state.attempt + 1
        }),
{
}

/// A transfer runs its steps in order and a retry starts it over: every
/// reopen (after a failure worth retrying) counts an attempt and returns to
/// the open, so the next success leads to writing the request again; the
/// request is written only after an open, the header read only after the
/// write, and the body only after the header announced it.
pub proof fn lemma_xmit_steps(state: XmitState, event: XmitEvent, want_response: bool, recv_cap: usize)
    requires
        xmit_state_ok(state),
    ensures
        ({
            let (next, action) = xmit_next(state, event, want_response, recv_cap);
            &&& action is Open ==> next.step is Open && next.attempt == state.attempt + 1 && (forall|
                h: Vec<u8>,
            | #[trigger] xmit_next(next, XmitEvent::Succeeded(h), want_response, recv_cap).1 is Write)
            &&& action is Write ==> state.step is Open && next.step is Write && event is Succeeded
            &&& action is ReadHeader ==> state.step is Write && next.step is ReadHeader && want_response
            &&& action matches XmitAction::ReadBody { total } ==> state.step is ReadHeader
                && next.step is ReadBody && next.total == total
            &&& event is Failed ==> action is Open || action is Finish
        }),
{
}

/// The request held in a 512-byte command buffer: as many bytes as its
/// header's size field announces.
pub open spec fn exchange_request(cmd: Seq<u8>) -> Seq<u8> {
    cmd.take(be32_at(cmd, 2) as int)
}

/// The code a hand-built command returns for the transport's `reply`: the
/// TPM's response code, read from a zero-filled receive buffer, or all
/// ones when the exchange failed.
pub open spec fn exchange_rc(reply: (u32, Vec<u8>)) -> u32 {
    if send_recv_rc(reply, 4096) != TPM_SUCCESS {
        0xFFFFFFFF
    } else {
        be32_at(overwrite(Seq::new(4096, |i: int| 0u8), 0, reply.1@), 6)
    }
}

/// Sends the command held in `cmd_buf` (its length is read from its
/// header) and copies the response to the front of `resp_buf`, returning
/// its length.  A header announcing more than the buffer holds is a
/// buffer-size error; a failed transfer gives its code.
pub fn tpm_exchange<X: Fn(&[u8], usize) -> (u32, Vec<u8>)>(
    xmit: &X,
    cmd_buf: &[u8; 512],
    resp_buf: &mut [u8; 4096],
) -> (r: Result<usize, u32>)
    requires
        transport_ready(*xmit),
    ensures
        be32_at(cmd_buf@, 2) > 512 ==> r == Err::<usize, u32>(TPM_E_BUFFER_SIZE),
        r is Err ==> final(resp_buf)@ == old(resp_buf)@,
        be32_at(cmd_buf@, 2) <= 512 ==> exists|reply: (u32, Vec<u8>)|
            {
                &&& #[trigger] exchanged(*xmit, exchange_request(cmd_buf@), 4096, reply)
                &&& send_recv_rc(reply, 4096) != TPM_SUCCESS ==> r == Err::<usize, u32>(
                    send_recv_rc(reply, 4096),
                )
                &&& send_recv_rc(reply, 4096) == TPM_SUCCESS ==> r == Ok::<usize, u32>(
                    reply.1@.len() as usize,
                ) && final(resp_buf)@ == overwrite(old(resp_buf)@, 0, reply.1@)
            },
{
    let length = read_be32(cmd_buf, 2) as usize;
    if length > 512 {
        return Err(TPM_E_BUFFER_SIZE);
    }
    let request = &cmd_buf[0..length];
    assert(request@ =~= exchange_request(cmd_buf@));
    let mut received: Vec<u8> = Vec::new();
    let mut received_size: u32 = 4096;
    let rc = vb2ex_tpm_send_recv(xmit, request, &mut received, &mut received_size);
    if rc != TPM_SUCCESS {
        return Err(rc);
    }
    let n = received.len();
    let mut i: usize = 0;
    while i < n
        invariant
            i <= n,
            n == received@.len(),
            n <= 4096,
            forall|j: int|
                0 <= j < 4096 ==> #[trigger] resp_buf@[j] == (if j < i {
                    received@[j]
                } else {
                    old(resp_buf)@[j]
                }),
        decreases n - i,
    {
        resp_buf[i] = received[i];
        i = i + 1;
    }
    assert(resp_buf@ =~= overwrite(old(resp_buf)@, 0, received@));
    Ok(n)
}

} // verus!
