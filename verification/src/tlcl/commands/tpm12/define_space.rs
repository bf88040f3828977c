//! NV space definition from a fixed TPM_NV_DATA_PUBLIC command image.
use vstd::prelude::*;

use crate::tlcl::bytes::{be16_at, be32_at, be32_bytes, overwrite};
use crate::tlcl::tpm12::requests::lemma_be32_in;
use crate::tlcl::unmarshal::unmarshal_response_code;
use crate::tlcl::{
    answers_alike, exchange_rc, exchanged, lemma_exchanged_unique, tpm_exchange, transport_ready,
};

verus! {

/// The NV_DefineSpace command with an empty index, permissions and size:
/// header, TPM_NV_DATA_PUBLIC tag, index, two PCR policies selecting no PCR
/// for every locality, the attributes tag and permissions, three cleared
/// flags, the size, and twenty trailing zero bytes.
pub const NV_DEFINESPACE_TEMPLATE: [u8; 101] = [
    0x00, 0xc1, 0x00, 0x00, 0x00, 0x65, 0x00, 0x00, 0x00, 0xcc,
    0x00, 0x18, 0x00, 0x00, 0x00, 0x00,
    0x00, 0x03, 0x00, 0x00, 0x00, 0x1f,
    0x00, 0x00, 0x00, 0x00, 0x00, 0x00, 0x00, 0x00, 0x00, 0x00,
    0x00, 0x00, 0x00, 0x00, 0x00, 0x00, 0x00, 0x00, 0x00, 0x00,
    0x00, 0x03, 0x00, 0x00, 0x00, 0x1f,
    0x00, 0x00, 0x00, 0x00, 0x00, 0x00, 0x00, 0x00, 0x00, 0x00,
    0x00, 0x00, 0x00, 0x00, 0x00, 0x00, 0x00, 0x00, 0x00, 0x00,
    0x00, 0x17, 0x00, 0x00, 0x00, 0x00,
    0x00, 0x00, 0x00, 0x00, 0x00, 0x00, 0x00,
    0x00, 0x00, 0x00, 0x00, 0x00, 0x00, 0x00, 0x00, 0x00, 0x00,
    0x00, 0x00, 0x00, 0x00, 0x00, 0x00, 0x00, 0x00, 0x00, 0x00,
];

/// Where the index is patched into the template.
pub const OFFSET_INDEX: usize = 12;

/// Where the permissions are patched into the template.
pub const OFFSET_PERM: usize = 70;

/// Where the size is patched into the template.
pub const OFFSET_SIZE: usize = 77;

/// The 101-byte command defining space `index` with `perm` and `size`.
pub open spec fn define_space_command(index: u32, perm: u32, size: u32) -> Seq<u8> {
    overwrite(
        overwrite(overwrite(NV_DEFINESPACE_TEMPLATE@, 12, be32_bytes(index)), 70, be32_bytes(perm)),
        77,
        be32_bytes(size),
    )
}

/// `rc` is what defining space `index` with `perm` and `size` returns:
/// the code for some reply of the transport to exactly that command.
pub open spec fn define_space_result<X: Fn(&[u8], usize) -> (u32, Vec<u8>)>(
    xmit: X,
    index: u32,
    perm: u32,
    size: u32,
    rc: u32,
) -> bool {
    exists|reply: (u32, Vec<u8>)|
        #[trigger] exchanged(xmit, define_space_command(index, perm, size), 4096, reply) && rc
            == exchange_rc(reply)
}

/// On a transport that answers alike, `TlclDefineSpaceEx` with any owner
/// authorisation (`rc_ex`) sends the same command and returns the same
/// code as `TlclDefineSpace` (`rc`): TPM 1.2 takes no authorisation here.
pub proof fn lemma_define_space_ex_is_define<X: Fn(&[u8], usize) -> (u32, Vec<u8>)>(
    xmit: X,
    index: u32,
    perm: u32,
    size: u32,
    rc_ex: u32,
    rc: u32,
)
    requires
        answers_alike(xmit),
        define_space_result(xmit, index, perm, size, rc_ex),
        define_space_result(xmit, index, perm, size, rc),
    ensures
        rc_ex == rc,
{
    let r1 = choose|reply: (u32, Vec<u8>)|
        #[trigger] exchanged(xmit, define_space_command(index, perm, size), 4096, reply) && rc_ex
            == exchange_rc(reply);
    let r2 = choose|reply: (u32, Vec<u8>)|
        #[trigger] exchanged(xmit, define_space_command(index, perm, size), 4096, reply) && rc
            == exchange_rc(reply);
    lemma_exchanged_unique(xmit, define_space_command(index, perm, size), 4096, r1, r2);
}

/// On a transport that answers alike, `TlclUndefineSpace` and
/// `TlclUndefineSpaceEx` (`rc_undefine`) send the same command and return
/// the same code as `TlclDefineSpace` with no permissions and no size
/// (`rc_define`).
pub proof fn lemma_undefine_is_define_zero<X: Fn(&[u8], usize) -> (u32, Vec<u8>)>(
    xmit: X,
    index: u32,
    rc_undefine: u32,
    rc_define: u32,
)
    requires
        answers_alike(xmit),
        define_space_result(xmit, index, 0, 0, rc_undefine),
        define_space_result(xmit, index, 0, 0, rc_define),
    ensures
        rc_undefine == rc_define,
{
    lemma_define_space_ex_is_define(xmit, index, 0, 0, rc_undefine, rc_define);
}

/// The hand-built definition is a 101-byte NV_DefineSpace for `index`
/// with permissions `perm` and `size` bytes: the header announcing 101
/// bytes, the TPM_NV_DATA_PUBLIC tag and the index, two policies selecting
/// no PCR for every locality, the attributes tag and the permissions,
/// bReadSTClear, bWriteSTClear and bWriteDefine all zero, the size, and
/// twenty zero bytes.
pub proof fn lemma_define_space_command_layout(index: u32, perm: u32, size: u32)
    ensures
        ({
            let r = define_space_command(index, perm, size);
            &&& r.len() == 101
            &&& be16_at(r, 0) == 0xc1
            &&& be32_at(r, 2) == 101
            &&& be32_at(r, 6) == 0xcc
            &&& be16_at(r, 10) == 0x18
            &&& be32_at(r, 12) == index
            &&& be16_at(r, 16) == 3 && r[18] == 0 && r[19] == 0 && r[20] == 0 && r[21] == 0x1f
            &&& be16_at(r, 42) == 3 && r[44] == 0 && r[45] == 0 && r[46] == 0 && r[47] == 0x1f
            &&& be16_at(r, 68) == 0x17
            &&& be32_at(r, 70) == perm
            &&& r[74] == 0 && r[75] == 0 && r[76] == 0
            &&& be32_at(r, 77) == size
            &&& forall|i: int| 81 <= i < 101 ==> #[trigger] r[i] == 0
        }),
{
    let r = define_space_command(index, perm, size);
    let t = NV_DEFINESPACE_TEMPLATE@;
    assert(r.len() == 101);
    assert(r.subrange(12, 16) =~= be32_bytes(index));
    assert(r.subrange(70, 74) =~= be32_bytes(perm));
    assert(r.subrange(77, 81) =~= be32_bytes(size));
    lemma_be32_in(r, 12, index);
    lemma_be32_in(r, 70, perm);
    lemma_be32_in(r, 77, size);
    assert forall|i: int| (0 <= i < 12 || 16 <= i < 70 || 74 <= i < 77 || 81 <= i < 101) implies #[trigger] r[i] == t[i] by {
    }
}

fn patch_u32(buf: &mut [u8], offset: usize, val: u32)
    requires
        offset + 4 <= old(buf)@.len(),
    ensures
        final(buf)@ == overwrite(old(buf)@, offset as int, be32_bytes(val)),
{
    buf[offset] = (val / 0x1000000) as u8;
    buf[offset + 1] = ((val / 0x10000) % 256) as u8;
    buf[offset + 2] = ((val / 0x100) % 256) as u8;
    buf[offset + 3] = (val % 256) as u8;
    assert(buf@ =~= overwrite(old(buf)@, offset as int, be32_bytes(val)));
}

fn define_space_ex<X: Fn(&[u8], usize) -> (u32, Vec<u8>)>(
    xmit: &X,
    index: u32,
    perm: u32,
    size: u32,
) -> (rc: u32)
    requires
        transport_ready(*xmit),
    ensures
        define_space_result(*xmit, index, perm, size, rc),
{
    let mut cmd_buf = [0u8; 512];
    let mut resp_buf = [0u8; 4096];
    let mut i: usize = 0;
    while i < 101
        invariant
            i <= 101,
            forall|j: int|
                0 <= j < 512 ==> #[trigger] cmd_buf@[j] == (if j < i {
                    NV_DEFINESPACE_TEMPLATE@[j]
                } else {
                    0u8
                }),
        decreases 101 - i,
    {
        cmd_buf[i] = NV_DEFINESPACE_TEMPLATE[i];
        i = i + 1;
    }
    patch_u32(&mut cmd_buf, OFFSET_INDEX, index);
    patch_u32(&mut cmd_buf, OFFSET_PERM, perm);
    patch_u32(&mut cmd_buf, OFFSET_SIZE, size);
    assert(be32_at(cmd_buf@, 2) == 101) by {
        assert(cmd_buf@[2] == NV_DEFINESPACE_TEMPLATE@[2]);
        assert(cmd_buf@[3] == NV_DEFINESPACE_TEMPLATE@[3]);
        assert(cmd_buf@[4] == NV_DEFINESPACE_TEMPLATE@[4]);
        assert(cmd_buf@[5] == NV_DEFINESPACE_TEMPLATE@[5]);
    }
    assert(cmd_buf@.take(101) =~= define_space_command(index, perm, size));
    let ghost zeros = resp_buf@;
    assert(zeros =~= Seq::new(4096, |i: int| 0u8));
    match tpm_exchange(xmit, &cmd_buf, &mut resp_buf) {
        Ok(_) => unmarshal_response_code(&resp_buf),
        Err(_) => 0xFFFFFFFF,
    }
}

/// Defines NV space `index` with permissions `perm` and `size` bytes.
pub fn TlclDefineSpace<X: Fn(&[u8], usize) -> (u32, Vec<u8>)>(
    xmit: &X,
    index: u32,
    perm: u32,
    size: u32,
) -> (rc: u32)
    requires
        transport_ready(*xmit),
    ensures
        define_space_result(*xmit, index, perm, size, rc),
{
    define_space_ex(xmit, index, perm, size)
}

/// As `TlclDefineSpace`; TPM 1.2 takes no owner authorisation here.
pub fn TlclDefineSpaceEx<X: Fn(&[u8], usize) -> (u32, Vec<u8>)>(
    xmit: &X,
    _owner_auth: Option<&[u8]>,
    index: u32,
    perm: u32,
    size: u32,
) -> (rc: u32)
    requires
        transport_ready(*xmit),
    ensures
        define_space_result(*xmit, index, perm, size, rc),
{
    define_space_ex(xmit, index, perm, size)
}

/// Removes NV space `index`: on TPM 1.2 that is a definition with no
/// permissions and no size.
pub fn TlclUndefineSpace<X: Fn(&[u8], usize) -> (u32, Vec<u8>)>(xmit: &X, index: u32) -> (rc: u32)
    requires
        transport_ready(*xmit),
    ensures
        define_space_result(*xmit, index, 0, 0, rc),
{
    define_space_ex(xmit, index, 0, 0)
}

/// As `TlclUndefineSpace`; TPM 1.2 takes no owner authorisation here.
pub fn TlclUndefineSpaceEx<X: Fn(&[u8], usize) -> (u32, Vec<u8>)>(
    xmit: &X,
    _owner_auth: Option<&[u8]>,
    index: u32,
) -> (rc: u32)
    requires
        transport_ready(*xmit),
    ensures
        define_space_result(*xmit, index, 0, 0, rc),
{
    define_space_ex(xmit, index, 0, 0)
}

} // verus!
