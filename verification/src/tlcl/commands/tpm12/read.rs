use vstd::prelude::*;

use crate::tlcl::bytes::be32_at;
use crate::tlcl::constants::{
    TPM_E_NO_SUCH_COMMAND, TPM_E_READ_EMPTY, TPM_E_RESPONSE_TOO_LARGE, TPM_SUCCESS,
};
use crate::tlcl::tpm12::constants::{
    TPM_ORD_NV_ReadValue, Tpm1CommandBody, tpm1_nv_read_cmd, tpm1_response,
};
use crate::tlcl::tpm12::{tpm1_outcome, tpm1_reply_code, tpm1_request, tpm_send_receive};
use crate::tlcl::{answers_alike, exchanged, lemma_exchanged_unique, transport_ready};

verus! {

/// The NV_ReadValue request for `length` bytes of space `index` at `offset`.
pub open spec fn tpm1_read_request(index: u32, length: u32, offset: u32) -> Seq<u8> {
    tpm1_request(
        TPM_ORD_NV_ReadValue,
        Tpm1CommandBody::NvRead(tpm1_nv_read_cmd { nvIndex: index, offset, size: length }),
    )
}

/// The data length that a reply to NV_ReadValue announces (0 without data).
pub open spec fn tpm1_read_data_size(reply: (u32, Vec<u8>)) -> u32 {
    if reply.1@.len() > 10 {
        be32_at(reply.1@, 10)
    } else {
        0
    }
}

/// The code a read of `length` bytes returns for the transport's `reply`:
/// the exchange's code if it is not success, else success only when the
/// TPM returned exactly `length` bytes (more is a short read, fewer a
/// response too small for the request).
pub open spec fn tpm1_read_rc(reply: (u32, Vec<u8>), length: u32) -> u32 {
    let code = tpm1_reply_code(TPM_ORD_NV_ReadValue, reply);
    if code != TPM_SUCCESS {
        code
    } else if length > tpm1_read_data_size(reply) {
        TPM_E_RESPONSE_TOO_LARGE
    } else if length < tpm1_read_data_size(reply) {
        TPM_E_READ_EMPTY
    } else {
        TPM_SUCCESS
    }
}

/// `buf` with its first `length` bytes replaced by the read data, which
/// starts at byte 14 of the response.
pub open spec fn read_into(buf: Seq<u8>, response: Seq<u8>, length: int) -> Seq<u8> {
    Seq::new(buf.len(), |j: int| if j < length { response[14 + j] } else { buf[j] })
}

/// `rc` and `new_buf` are what reading `length` bytes of space `index` at
/// `offset` into `old_buf` gives: the code for some reply of the transport
/// to exactly that request, the buffer filled from the reply on success and
/// left as it was otherwise.
pub open spec fn tpm1_read_result<X: Fn(&[u8], usize) -> (u32, Vec<u8>)>(
    xmit: X,
    index: u32,
    length: u32,
    offset: u32,
    old_buf: Seq<u8>,
    new_buf: Seq<u8>,
    rc: u32,
) -> bool {
    &&& exists|reply: (u32, Vec<u8>)|
        {
            &&& #[trigger] exchanged(xmit, tpm1_read_request(index, length, offset), 2048, reply)
            &&& rc == tpm1_read_rc(reply, length)
            &&& rc == TPM_SUCCESS ==> new_buf == read_into(old_buf, reply.1@, length as int)
        }
    &&& rc != TPM_SUCCESS ==> new_buf == old_buf
}

/// On a transport that answers alike, `TlclRead` (`rc1`, `buf1`) has the
/// same result, traffic and effect on the buffer as `TlclReadWithOffset`
/// at offset 0 (`rc2`, `buf2`).
pub proof fn lemma_read_is_read_with_offset_zero<X: Fn(&[u8], usize) -> (u32, Vec<u8>)>(
    xmit: X,
    index: u32,
    length: u32,
    old_buf: Seq<u8>,
    buf1: Seq<u8>,
    rc1: u32,
    buf2: Seq<u8>,
    rc2: u32,
)
    requires
        answers_alike(xmit),
        tpm1_read_result(xmit, index, length, 0, old_buf, buf1, rc1),
        tpm1_read_result(xmit, index, length, 0, old_buf, buf2, rc2),
    ensures
        rc1 == rc2,
        buf1 == buf2,
{
    let req = tpm1_read_request(index, length, 0);
    let r1 = choose|reply: (u32, Vec<u8>)|
        {
            &&& #[trigger] exchanged(xmit, req, 2048, reply)
            &&& rc1 == tpm1_read_rc(reply, length)
            &&& rc1 == TPM_SUCCESS ==> buf1 == read_into(old_buf, reply.1@, length as int)
        };
    let r2 = choose|reply: (u32, Vec<u8>)|
        {
            &&& #[trigger] exchanged(xmit, req, 2048, reply)
            &&& rc2 == tpm1_read_rc(reply, length)
            &&& rc2 == TPM_SUCCESS ==> buf2 == read_into(old_buf, reply.1@, length as int)
        };
    lemma_exchanged_unique(xmit, req, 2048, r1, r2);
}

/// Reads `length` bytes from the start of NV space `index` into `outbuf`.
pub fn TlclRead<X: Fn(&[u8], usize) -> (u32, Vec<u8>)>(
    xmit: &X,
    index: u32,
    outbuf: &mut [u8],
    length: u32,
) -> (rc: u32)
    requires
        transport_ready(*xmit),
        length <= old(outbuf)@.len(),
    ensures
        tpm1_read_result(*xmit, index, length, 0, old(outbuf)@, final(outbuf)@, rc),
{
    TlclReadWithOffset(xmit, index, length, 0, outbuf)
}

/// Reads `length` bytes of NV space `index` at `offset` into `outbuf`.
pub fn TlclReadWithOffset<X: Fn(&[u8], usize) -> (u32, Vec<u8>)>(
    xmit: &X,
    index: u32,
    length: u32,
    offset: u32,
    outbuf: &mut [u8],
) -> (rc: u32)
    requires
        transport_ready(*xmit),
        length <= old(outbuf)@.len(),
    ensures
        tpm1_read_result(*xmit, index, length, offset, old(outbuf)@, final(outbuf)@, rc),
{
    let nv_readc = Tpm1CommandBody::NvRead(
        tpm1_nv_read_cmd { nvIndex: index, offset, size: length },
    );
    let mut response = tpm1_response::zeroed();
    let ghost zeroed = response;
    let rv = tpm_send_receive(xmit, TPM_ORD_NV_ReadValue, &nv_readc, &mut response);
    let ghost reply = choose|reply: (u32, Vec<u8>)|
        #[trigger] exchanged(*xmit, tpm1_read_request(index, length, offset), 2048, reply)
            && tpm1_outcome(TPM_ORD_NV_ReadValue, reply, rv, zeroed, response);
    if rv != TPM_SUCCESS {
        return rv;
    }
    assert(response.nvr.data_size == tpm1_read_data_size(reply));
    if length > response.nvr.data_size {
        return TPM_E_RESPONSE_TOO_LARGE;
    }
    if length < response.nvr.data_size {
        return TPM_E_READ_EMPTY;
    }
    let n = length as usize;
    let mut i: usize = 0;
    while i < n
        invariant
            i <= n,
            n <= outbuf@.len(),
            n <= 2048,
            outbuf@.len() == old(outbuf)@.len(),
            forall|j: int|
                0 <= j < outbuf@.len() ==> #[trigger] outbuf@[j] == (if j < i {
                    response.nvr.data@[j]
                } else {
                    old(outbuf)@[j]
                }),
        decreases n - i,
    {
        outbuf[i] = response.nvr.data[i];
        i = i + 1;
    }
    proof {
        if n > 0 {
            assert forall|j: int| 0 <= j < n implies response.nvr.data@[j] == reply.1@[14 + j] by {
                assert(response.nvr.data@.take(n as int)[j] == reply.1@.subrange(14, 14 + n)[j]);
            }
        }
    }
    assert(outbuf@ =~= read_into(old(outbuf)@, reply.1@, length as int));
    TPM_SUCCESS
}

/// TPM 1.2 has no NV_ReadPublic command; `_presp` is left as it was.
pub fn TlclNVReadPublic(_index: u32, _presp: &mut [u8]) -> (rc: u32)
    ensures
        rc == TPM_E_NO_SUCH_COMMAND,
        final(_presp)@ == old(_presp)@,
{
    TPM_E_NO_SUCH_COMMAND
}

} // verus!
