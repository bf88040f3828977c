//! TPM 2.0: wire format and the command round trip.
pub mod constants;
pub mod marshal;
pub mod types;
pub mod unmarshal;

use vstd::prelude::*;

use crate::tlcl::bytes::be32_at;
use crate::tlcl::constants::{TPM_E_READ_FAILURE, TPM_E_WRITE_FAILURE, TPM_SUCCESS};
use crate::tlcl::tpm20::constants::{TPM2_Clear, Tpm2CommandBody, tpm2_response};
use crate::tlcl::tpm20::marshal::{
    tpm2_body_bytes, tpm2_command_bytes, tpm2_marshal_result, tpm_marshal_command,
};
use crate::tlcl::tpm20::unmarshal::{tpm2_parsed, tpm2_response_ok, tpm_unmarshal_response};
use crate::tlcl::{
    answers_alike, exchanged, lemma_exchanged_unique, send_recv_rc, transport_ready,
    vb2ex_tpm_send_recv,
};

verus! {

/// The bytes sent for `command`: the built command, or nothing at all when
/// its parameters fill the command buffer to the last byte.
pub open spec fn tpm2_request(command: u32) -> Seq<u8> {
    if tpm2_marshal_result(command, 2048) == 0 {
        Seq::empty()
    } else {
        tpm2_command_bytes(command, tpm2_body_bytes(command)->0)
    }
}

/// The code a command returns for the transport's `reply`: the transfer's
/// failure, a read failure for a malformed response, else the TPM's code.
pub open spec fn tpm2_reply_code(command: u32, reply: (u32, Vec<u8>)) -> u32 {
    let rc = send_recv_rc(reply, 2048);
    if rc != TPM_SUCCESS {
        rc
    } else if !tpm2_response_ok(command, reply.1@, reply.1@.len() as int) {
        TPM_E_READ_FAILURE
    } else {
        be32_at(reply.1@, 6)
    }
}

/// `rc` is what sending `command` returns: a write failure when the
/// command cannot be built, else the code for some reply of the transport
/// to exactly the built request.
pub open spec fn tpm2_transaction<X: Fn(&[u8], usize) -> (u32, Vec<u8>)>(
    xmit: X,
    command: u32,
    rc: u32,
) -> bool {
    if tpm2_marshal_result(command, 2048) < 0 {
        rc == TPM_E_WRITE_FAILURE
    } else {
        exists|reply: (u32, Vec<u8>)|
            #[trigger] exchanged(xmit, tpm2_request(command), 2048, reply) && rc == tpm2_reply_code(
                command,
                reply,
            )
    }
}

/// On a transport that answers alike, sending a command gives one result:
/// every way of sending the same command (a command function or the client
/// method that stands for it) returns the same code.
pub proof fn lemma_tpm2_transaction_unique<X: Fn(&[u8], usize) -> (u32, Vec<u8>)>(
    xmit: X,
    command: u32,
    rc1: u32,
    rc2: u32,
)
    requires
        answers_alike(xmit),
        tpm2_transaction(xmit, command, rc1),
        tpm2_transaction(xmit, command, rc2),
    ensures
        rc1 == rc2,
{
    if tpm2_marshal_result(command, 2048) >= 0 {
        let r1 = choose|reply: (u32, Vec<u8>)|
            #[trigger] exchanged(xmit, tpm2_request(command), 2048, reply) && rc1 == tpm2_reply_code(
                command,
                reply,
            );
        let r2 = choose|reply: (u32, Vec<u8>)|
            #[trigger] exchanged(xmit, tpm2_request(command), 2048, reply) && rc2 == tpm2_reply_code(
                command,
                reply,
            );
        lemma_exchanged_unique(xmit, tpm2_request(command), 2048, r1, r2);
    }
}

/// Builds `command`, sends it and parses the response into `response`.
/// Returns a write failure when the command cannot be built, the transfer's
/// failure, a read failure for a malformed response, else success; the
/// TPM's own code is then in the response header.
pub fn tpm_get_response<X: Fn(&[u8], usize) -> (u32, Vec<u8>)>(
    xmit: &X,
    command: u32,
    command_body: &Tpm2CommandBody,
    response: &mut tpm2_response,
) -> (rc: u32)
    requires
        transport_ready(*xmit),
    ensures
        tpm2_marshal_result(command, 2048) < 0 ==> rc == TPM_E_WRITE_FAILURE && *final(response)
            == *old(response),
        tpm2_marshal_result(command, 2048) >= 0 ==> exists|reply: (u32, Vec<u8>)|
            {
                &&& #[trigger] exchanged(*xmit, tpm2_request(command), 2048, reply)
                &&& send_recv_rc(reply, 2048) != TPM_SUCCESS ==> rc == send_recv_rc(reply, 2048)
                    && *final(response) == *old(response)
                &&& send_recv_rc(reply, 2048) == TPM_SUCCESS ==> {
                    &&& tpm2_response_ok(command, reply.1@, reply.1@.len() as int) ==> rc
                        == TPM_SUCCESS && tpm2_parsed(
                        command,
                        reply.1@,
                        reply.1@.len() as int,
                        *old(response),
                        *final(response),
                    )
                    &&& !tpm2_response_ok(command, reply.1@, reply.1@.len() as int) ==> rc
                        == TPM_E_READ_FAILURE
                }
            },
{
    let mut cr_buffer = [0u8; 2048];
    let out_size = tpm_marshal_command(command, command_body, &mut cr_buffer, 2048);
    if out_size < 0 {
        return TPM_E_WRITE_FAILURE;
    }
    let ghost request = tpm2_request(command);
    let sent = &cr_buffer[0..out_size as usize];
    assert(sent@ =~= request);
    let mut received: Vec<u8> = Vec::new();
    let mut in_size: u32 = 2048;
    let res = vb2ex_tpm_send_recv(xmit, sent, &mut received, &mut in_size);
    if res != TPM_SUCCESS {
        return res;
    }
    if tpm_unmarshal_response(command, received.as_slice(), in_size as i32, response) < 0 {
        return TPM_E_READ_FAILURE;
    }
    TPM_SUCCESS
}

/// `rc` is the code for the transport's `reply` to `command`, and `new`
/// holds the parsed response when the reply was a well-formed response.
pub open spec fn tpm2_outcome(
    command: u32,
    reply: (u32, Vec<u8>),
    rc: u32,
    old: tpm2_response,
    new: tpm2_response,
) -> bool {
    &&& rc == tpm2_reply_code(command, reply)
    &&& send_recv_rc(reply, 2048) == TPM_SUCCESS && tpm2_response_ok(
        command,
        reply.1@,
        reply.1@.len() as int,
    ) ==> tpm2_parsed(command, reply.1@, reply.1@.len() as int, old, new)
}

/// Sends `command` and returns the TPM's response code, or the failure
/// that kept the exchange from completing (see `tpm2_reply_code`).
pub fn tpm_send_receive<X: Fn(&[u8], usize) -> (u32, Vec<u8>)>(
    xmit: &X,
    command: u32,
    command_body: &Tpm2CommandBody,
    response: &mut tpm2_response,
) -> (rc: u32)
    requires
        transport_ready(*xmit),
    ensures
        tpm2_transaction(*xmit, command, rc),
        tpm2_marshal_result(command, 2048) >= 0 ==> exists|reply: (u32, Vec<u8>)|
            #[trigger] exchanged(*xmit, tpm2_request(command), 2048, reply) && tpm2_outcome(
                command,
                reply,
                rc,
                *old(response),
                *final(response),
            ),
{
    let rv = tpm_get_response(xmit, command, command_body, response);
    if rv != TPM_SUCCESS {
        return rv;
    }
    response.hdr.tpm_code
}

/// Sends `command` and returns the TPM's response code, or the failure
/// that kept the exchange from completing.
pub fn tpm_get_response_code<X: Fn(&[u8], usize) -> (u32, Vec<u8>)>(
    xmit: &X,
    command: u32,
    command_body: &Tpm2CommandBody,
) -> (rc: u32)
    requires
        transport_ready(*xmit),
    ensures
        tpm2_transaction(*xmit, command, rc),
{
    let mut response = tpm2_response::zeroed();
    tpm_send_receive(xmit, command, command_body, &mut response)
}

/// Only TPM2_Clear is built by the command writer: sending any other
/// command ends in a write failure, whatever the transport.
pub proof fn lemma_tpm2_unbuilt_commands_fail<X: Fn(&[u8], usize) -> (u32, Vec<u8>)>(
    xmit: X,
    command: u32,
    rc: u32,
)
    requires
        command != TPM2_Clear,
    ensures
        tpm2_transaction(xmit, command, rc) <==> rc == TPM_E_WRITE_FAILURE,
{
}

/// The TPM version this command family speaks.
pub fn TlclGetTPMVersion() -> (v: String)
    ensures
        v@ == "2.0"@,
{
    String::from_str("2.0")
}

} // verus!
