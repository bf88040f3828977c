//! Serialisation of TPM 1.2 commands into a command buffer.
//!
//! The field writers share one convention: `buffer_space` is the room left
//! after `*at`; a write that does not fit sets it to -1 and writes nothing,
//! and -1 stays -1 through every later write.
use vstd::prelude::*;

pub use crate::tlcl::bytes::{write_be16, write_be32};
use crate::tlcl::bytes::{
    be16_at, be16_bytes, be32_at, be32_bytes, lemma_be16_roundtrip, lemma_be32_roundtrip,
    lemma_overwrite_append, overwrite,
};
use crate::tlcl::tpm12::constants::{
    TPM_ORD_ForceClear, TPM_ORD_NV_DefineSpace, TPM_ORD_NV_ReadValue, TPM_ORD_NV_WriteValue,
    TPM_ORD_PhysicalEnable, TPM_ORD_SaveState, TPM_ORD_Startup, TPM_TAG_NV_ATTRIBUTES,
    TPM_TAG_NV_DATA_PUBLIC, TPM_TAG_RQU_COMMAND, TSC_ORD_PhysicalPresence, Tpm1CommandBody,
    tpm1_nv_define_space_cmd, tpm1_nv_read_cmd, tpm1_nv_write_cmd, tpm1_physical_presence_cmd,
    tpm1_startup_cmd,
};
use crate::tlcl::tpm12::utils::{encode_nv_auth_policy, nv_auth_policy_bytes};

verus! {

/// The cursor invariant: while there is room, the room ends inside the buffer.
pub open spec fn cursor_ok(buf_len: int, at: usize, space: i32) -> bool {
    space >= 0 ==> at + space <= buf_len
}

/// Every byte of `buf` is either the byte of `old_buf` at its place or,
/// inside the `room` bytes from `at`, the byte of `b` for its place: writes
/// of `b` that stopped part-way (or never began) changed nothing else.
pub open spec fn written_within(old_buf: Seq<u8>, buf: Seq<u8>, at: int, room: int, b: Seq<u8>) -> bool {
    &&& buf.len() == old_buf.len()
    &&& forall|j: int|
        0 <= j < buf.len() ==> #[trigger] buf[j] == old_buf[j] || (at <= j < at + room && j - at
            < b.len() && buf[j] == b[j - at])
}

/// A sequence of writes put the bytes `b` at the cursor: if they fitted,
/// the buffer holds them, the cursor moved past them and the room shrank by
/// their length; if not, the room is -1 and only bytes of `b` inside the
/// room were written (see `written_within`).  The buffer keeps its length.
pub open spec fn marshalled(
    old_buf: Seq<u8>,
    old_at: usize,
    old_space: i32,
    b: Seq<u8>,
    buf: Seq<u8>,
    at: usize,
    space: i32,
) -> bool {
    &&& buf.len() == old_buf.len()
    &&& cursor_ok(buf.len() as int, at, space)
    &&& old_space >= b.len() ==> {
        &&& space == old_space - b.len()
        &&& at == old_at + b.len()
        &&& buf == overwrite(old_buf, old_at as int, b)
    }
    &&& old_space < b.len() ==> space == -1
    &&& old_space < b.len() ==> written_within(old_buf, buf, old_at as int, old_space as int, b)
}

/// A completed or stopped write of `b` touched only bytes of `b` inside
/// the room.
pub proof fn lemma_marshalled_within(
    old_buf: Seq<u8>,
    old_at: usize,
    old_space: i32,
    b: Seq<u8>,
    buf: Seq<u8>,
    at: usize,
    space: i32,
)
    requires
        cursor_ok(old_buf.len() as int, old_at, old_space),
        marshalled(old_buf, old_at, old_space, b, buf, at, space),
    ensures
        written_within(old_buf, buf, old_at as int, old_space as int, b),
{
    if old_space >= b.len() {
        assert forall|j: int| 0 <= j < buf.len() implies #[trigger] buf[j] == old_buf[j] || (old_at
            <= j < old_at + old_space && j - old_at < b.len() && buf[j] == b[j - old_at]) by {
            if old_at <= j < old_at + b.len() {
                assert(buf[j] == b[j - old_at]);
            } else {
                assert(buf[j] == old_buf[j]);
            }
        }
    }
}

/// Bytes written after a prefix of `b0` count as bytes of `b0 + b`.
pub proof fn lemma_within_after(old_buf: Seq<u8>, buf: Seq<u8>, at: int, room: int, b0: Seq<u8>, b: Seq<u8>)
    requires
        written_within(old_buf, buf, at + b0.len(), room - b0.len(), b),
    ensures
        written_within(old_buf, buf, at, room, b0 + b),
{
    assert forall|j: int| 0 <= j < buf.len() implies #[trigger] buf[j] == old_buf[j] || (at <= j < at
        + room && j - at < (b0 + b).len() && buf[j] == (b0 + b)[j - at]) by {
        if buf[j] != old_buf[j] {
            assert((b0 + b)[j - at] == b[j - at - b0.len()]);
        }
    }
}

/// A single write: as `marshalled`, and a write that does not fit leaves
/// the buffer and the cursor as they were.
pub open spec fn marshalled_exactly(
    old_buf: Seq<u8>,
    old_at: usize,
    old_space: i32,
    b: Seq<u8>,
    buf: Seq<u8>,
    at: usize,
    space: i32,
) -> bool {
    &&& marshalled(old_buf, old_at, old_space, b, buf, at, space)
    &&& old_space < b.len() ==> buf == old_buf && at == old_at
}

/// Writing `b1` and then `b2` is writing `b1 + b2`; each state is a
/// (buffer, cursor, room) triple.
pub proof fn lemma_marshalled_then(
    st0: (Seq<u8>, usize, i32),
    b1: Seq<u8>,
    st1: (Seq<u8>, usize, i32),
    b2: Seq<u8>,
    st2: (Seq<u8>, usize, i32),
)
    requires
        cursor_ok(st0.0.len() as int, st0.1, st0.2),
        marshalled(st0.0, st0.1, st0.2, b1, st1.0, st1.1, st1.2),
        marshalled(st1.0, st1.1, st1.2, b2, st2.0, st2.1, st2.2),
    ensures
        marshalled(st0.0, st0.1, st0.2, b1 + b2, st2.0, st2.1, st2.2),
{
    let (buf0, at0, s0) = (st0.0, st0.1 as int, st0.2 as int);
    if st0.2 >= b1.len() + b2.len() {
        assert(overwrite(overwrite(st0.0, st0.1 as int, b1), st0.1 + b1.len(), b2) =~= overwrite(
            st0.0,
            st0.1 as int,
            b1 + b2,
        ));
    } else if st0.2 >= b1.len() {
        let b = b1 + b2;
        assert forall|j: int| 0 <= j < st2.0.len() implies #[trigger] st2.0[j] == buf0[j] || (at0
            <= j < at0 + s0 && j - at0 < b.len() && st2.0[j] == b[j - at0]) by {
            if st2.0[j] != st1.0[j] {
                assert(st1.0[j] == st1.0[j]);
                assert(st2.0[j] == b2[j - at0 - b1.len()]);
                assert(b[j - at0] == b2[j - at0 - b1.len()]);
            } else if at0 <= j < at0 + b1.len() {
                assert(st1.0[j] == b1[j - at0]);
                assert(b[j - at0] == b1[j - at0]);
            } else {
                assert(st1.0[j] == buf0[j]);
            }
        }
    } else {
        let b = b1 + b2;
        assert forall|j: int| 0 <= j < st2.0.len() implies #[trigger] st2.0[j] == buf0[j] || (at0
            <= j < at0 + s0 && j - at0 < b.len() && st2.0[j] == b[j - at0]) by {
            assert(st2.0[j] == st1.0[j]);
            if st1.0[j] != buf0[j] {
                assert(b[j - at0] == b1[j - at0]);
            }
        }
    }
}

/// Writes of `b` that stopped part-way put down a first part of `b` no
/// longer than the room, and nothing else: the buffer is unchanged, or
/// holds the first `k` bytes of `b` at `at` for some `k` within the room.
pub open spec fn prefix_written(old_buf: Seq<u8>, buf: Seq<u8>, at: int, room: int, b: Seq<u8>) -> bool {
    ||| buf == old_buf
    ||| exists|k: int| 0 < k <= b.len() && k <= room && #[trigger] overwrite(old_buf, at, b.take(k)) == buf
}

/// As `marshalled`, and writes that stopped part-way put down a first
/// part of `b` (see `prefix_written`).
pub open spec fn marshalled_prefix(
    old_buf: Seq<u8>,
    old_at: usize,
    old_space: i32,
    b: Seq<u8>,
    buf: Seq<u8>,
    at: usize,
    space: i32,
) -> bool {
    &&& marshalled(old_buf, old_at, old_space, b, buf, at, space)
    &&& old_space < b.len() ==> prefix_written(old_buf, buf, old_at as int, old_space as int, b)
}

/// A completed or stopped write of `b` put down a first part of `b`.
pub proof fn lemma_prefix_whole(
    old_buf: Seq<u8>,
    old_at: usize,
    old_space: i32,
    b: Seq<u8>,
    buf: Seq<u8>,
    at: usize,
    space: i32,
)
    requires
        cursor_ok(old_buf.len() as int, old_at, old_space),
        marshalled_prefix(old_buf, old_at, old_space, b, buf, at, space),
    ensures
        prefix_written(old_buf, buf, old_at as int, old_space as int, b),
{
    if old_space >= b.len() {
        if b.len() == 0 {
            assert(buf =~= old_buf);
        } else {
            assert(b.take(b.len() as int) =~= b);
            assert(overwrite(old_buf, old_at as int, b.take(b.len() as int)) == buf);
        }
    }
}

/// Writing `b1` and then `b2`, each stopping part-way only after a first
/// part, is writing `b1 + b2` the same way.
pub proof fn lemma_prefix_then(
    st0: (Seq<u8>, usize, i32),
    b1: Seq<u8>,
    st1: (Seq<u8>, usize, i32),
    b2: Seq<u8>,
    st2: (Seq<u8>, usize, i32),
)
    requires
        cursor_ok(st0.0.len() as int, st0.1, st0.2),
        marshalled_prefix(st0.0, st0.1, st0.2, b1, st1.0, st1.1, st1.2),
        marshalled_prefix(st1.0, st1.1, st1.2, b2, st2.0, st2.1, st2.2),
    ensures
        marshalled_prefix(st0.0, st0.1, st0.2, b1 + b2, st2.0, st2.1, st2.2),
{
    lemma_marshalled_then(st0, b1, st1, b2, st2);
    let (buf0, at0, s0) = (st0.0, st0.1 as int, st0.2 as int);
    let b = b1 + b2;
    if s0 < b.len() {
        if s0 >= b1.len() {
            assert(st1.0 == overwrite(buf0, at0, b1));
            if st2.0 == st1.0 {
                if b1.len() == 0 {
                    assert(st1.0 =~= buf0);
                } else {
                    assert(b.take(b1.len() as int) =~= b1);
                    assert(overwrite(buf0, at0, b.take(b1.len() as int)) == st2.0);
                }
            } else {
                let k2 = choose|k: int|
                    0 < k <= b2.len() && k <= st1.2 && #[trigger] overwrite(st1.0, st1.1 as int, b2.take(k))
                        == st2.0;
                lemma_overwrite_append(buf0, at0, b1, b2.take(k2));
                assert(b1 + b2.take(k2) =~= b.take(b1.len() + k2));
                assert(overwrite(buf0, at0, b.take(b1.len() + k2)) == st2.0);
            }
        } else {
            assert(st2.0 =~= st1.0) by {
                assert forall|j: int| 0 <= j < st2.0.len() implies st2.0[j] == st1.0[j] by {
                    assert(written_within(st1.0, st2.0, st1.1 as int, st1.2 as int, b2));
                }
            }
            if st1.0 != buf0 {
                let k1 = choose|k: int|
                    0 < k <= b1.len() && k <= s0 && #[trigger] overwrite(buf0, at0, b1.take(k)) == st1.0;
                assert(b1.take(k1) =~= b.take(k1));
                assert(overwrite(buf0, at0, b.take(k1)) == st2.0);
            }
        }
    }
}

/// Writes `value` as one byte.
pub fn marshal_u8(buffer: &mut [u8], at: &mut usize, value: u8, buffer_space: &mut i32)
    requires
        cursor_ok(old(buffer).len() as int, *old(at), *old(buffer_space)),
    ensures
        marshalled_exactly(
            old(buffer)@,
            *old(at),
            *old(buffer_space),
            seq![value],
            final(buffer)@,
            *final(at),
            *final(buffer_space),
        ),
{
    if *buffer_space < 1 {
        *buffer_space = -1;
        return ;
    }
    buffer[*at] = value;
    *at = *at + 1;
    *buffer_space = *buffer_space - 1;
    assert(buffer@ =~= overwrite(old(buffer)@, *old(at) as int, seq![value]));
}

/// Writes `value` as two big-endian bytes.
pub fn marshal_u16(buffer: &mut [u8], at: &mut usize, value: u16, buffer_space: &mut i32)
    requires
        cursor_ok(old(buffer).len() as int, *old(at), *old(buffer_space)),
    ensures
        marshalled_exactly(
            old(buffer)@,
            *old(at),
            *old(buffer_space),
            be16_bytes(value),
            final(buffer)@,
            *final(at),
            *final(buffer_space),
        ),
{
    if *buffer_space < 2 {
        *buffer_space = -1;
        return ;
    }
    write_be16(buffer, *at, value);
    *at = *at + 2;
    *buffer_space = *buffer_space - 2;
}

/// Writes `value` as four big-endian bytes.
pub fn marshal_u32(buffer: &mut [u8], at: &mut usize, value: u32, buffer_space: &mut i32)
    requires
        cursor_ok(old(buffer).len() as int, *old(at), *old(buffer_space)),
    ensures
        marshalled_exactly(
            old(buffer)@,
            *old(at),
            *old(buffer_space),
            be32_bytes(value),
            final(buffer)@,
            *final(at),
            *final(buffer_space),
        ),
{
    if *buffer_space < 4 {
        *buffer_space = -1;
        return ;
    }
    write_be32(buffer, *at, value);
    *at = *at + 4;
    *buffer_space = *buffer_space - 4;
}

/// Copies the first `blob_size` bytes of `blob`.
pub fn marshal_blob(
    buffer: &mut [u8],
    at: &mut usize,
    blob: &[u8],
    blob_size: usize,
    buffer_space: &mut i32,
)
    requires
        cursor_ok(old(buffer).len() as int, *old(at), *old(buffer_space)),
        blob_size <= blob@.len(),
        blob_size <= i32::MAX,
    ensures
        marshalled_exactly(
            old(buffer)@,
            *old(at),
            *old(buffer_space),
            blob@.take(blob_size as int),
            final(buffer)@,
            *final(at),
            *final(buffer_space),
        ),
{
    if *buffer_space < blob_size as i32 {
        *buffer_space = -1;
        return ;
    }
    let start = *at;
    assert(buffer@.len() == buffer.len());
    let mut i: usize = 0;
    while i < blob_size
        invariant
            i <= blob_size,
            blob_size <= blob@.len(),
            start + blob_size <= buffer@.len(),
            buffer@.len() == old(buffer)@.len(),
            buffer@.len() <= usize::MAX,
            forall|j: int|
                0 <= j < buffer@.len() ==> #[trigger] buffer@[j] == (if start <= j < start + i {
                    blob@[j - start]
                } else {
                    old(buffer)@[j]
                }),
        decreases blob_size - i,
    {
        buffer[start + i] = blob[i];
        i = i + 1;
    }
    *at = start + blob_size;
    *buffer_space = *buffer_space - blob_size as i32;
    assert(buffer@ =~= overwrite(old(buffer)@, start as int, blob@.take(blob_size as int)));
}

/// ForceClear has no parameters.
pub fn marshal_force_clear(_buffer: &mut [u8], _at: &mut usize, _buffer_space: &mut i32)
    ensures
        final(_buffer)@ == old(_buffer)@,
        *final(_at) == *old(_at),
        *final(_buffer_space) == *old(_buffer_space),
{
}

/// PhysicalEnable has no parameters.
pub fn marshal_physical_enable(_buffer: &mut [u8], _at: &mut usize, _buffer_space: &mut i32)
    ensures
        final(_buffer)@ == old(_buffer)@,
        *final(_at) == *old(_at),
        *final(_buffer_space) == *old(_buffer_space),
{
}

/// SaveState has no parameters.
pub fn marshal_savestate(_buffer: &mut [u8], _at: &mut usize, _buffer_space: &mut i32)
    ensures
        final(_buffer)@ == old(_buffer)@,
        *final(_at) == *old(_at),
        *final(_buffer_space) == *old(_buffer_space),
{
}

/// The parameters of a PhysicalPresence command.
pub open spec fn physical_presence_bytes(c: tpm1_physical_presence_cmd) -> Seq<u8> {
    be16_bytes(c.physical_presence)
}

/// Writes the presence flags; without parameters the room becomes -1.
pub fn marshal_physical_presence(
    buffer: &mut [u8],
    at: &mut usize,
    command_body: Option<&tpm1_physical_presence_cmd>,
    buffer_space: &mut i32,
)
    requires
        cursor_ok(old(buffer).len() as int, *old(at), *old(buffer_space)),
    ensures
        command_body is None ==> *final(buffer_space) == -1 && final(buffer)@ == old(buffer)@,
        command_body matches Some(c) ==> marshalled_prefix(
            old(buffer)@,
            *old(at),
            *old(buffer_space),
            physical_presence_bytes(*c),
            final(buffer)@,
            *final(at),
            *final(buffer_space),
        ),
        cursor_ok(final(buffer)@.len() as int, *final(at), *final(buffer_space)),
        final(buffer)@.len() == old(buffer)@.len(),
{
    match command_body {
        None => {
            *buffer_space = -1;
        },
        Some(c) => {
            marshal_u16(buffer, at, c.physical_presence, buffer_space);
        },
    }
}

/// The parameters of an NV_ReadValue command: index, offset, size.
pub open spec fn nv_read_bytes(c: tpm1_nv_read_cmd) -> Seq<u8> {
    be32_bytes(c.nvIndex) + be32_bytes(c.offset) + be32_bytes(c.size)
}

/// Writes the read request; without parameters the room becomes -1.
pub fn marshal_nv_read(
    buffer: &mut [u8],
    at: &mut usize,
    command_body: Option<&tpm1_nv_read_cmd>,
    buffer_space: &mut i32,
)
    requires
        cursor_ok(old(buffer).len() as int, *old(at), *old(buffer_space)),
    ensures
        command_body is None ==> *final(buffer_space) == -1 && final(buffer)@ == old(buffer)@,
        command_body matches Some(c) ==> marshalled_prefix(
            old(buffer)@,
            *old(at),
            *old(buffer_space),
            nv_read_bytes(*c),
            final(buffer)@,
            *final(at),
            *final(buffer_space),
        ),
        cursor_ok(final(buffer)@.len() as int, *final(at), *final(buffer_space)),
        final(buffer)@.len() == old(buffer)@.len(),
{
    match command_body {
        None => {
            *buffer_space = -1;
        },
        Some(c) => {
            let ghost st0 = (buffer@, *at, *buffer_space);
            marshal_u32(buffer, at, c.nvIndex, buffer_space);
            let ghost st1 = (buffer@, *at, *buffer_space);
            marshal_u32(buffer, at, c.offset, buffer_space);
            proof {
                lemma_prefix_then(
                    st0,
                    be32_bytes(c.nvIndex),
                    st1,
                    be32_bytes(c.offset),
                    (buffer@, *at, *buffer_space),
                );
            }
            let ghost st2 = (buffer@, *at, *buffer_space);
            marshal_u32(buffer, at, c.size, buffer_space);
            proof {
                lemma_prefix_then(
                    st0,
                    be32_bytes(c.nvIndex) + be32_bytes(c.offset),
                    st2,
                    be32_bytes(c.size),
                    (buffer@, *at, *buffer_space),
                );
            }
        },
    }
}

/// The parameters of an NV_WriteValue command: index, offset, size and the
/// first `size` bytes of the data.
pub open spec fn nv_write_bytes(c: tpm1_nv_write_cmd) -> Seq<u8> {
    be32_bytes(c.nvIndex) + be32_bytes(c.offset) + be32_bytes(c.size) + c.data@.take(c.size as int)
}

/// Writes the write request; without parameters the room becomes -1.
pub fn marshal_nv_write(
    buffer: &mut [u8],
    at: &mut usize,
    command_body: Option<&tpm1_nv_write_cmd>,
    buffer_space: &mut i32,
)
    requires
        cursor_ok(old(buffer).len() as int, *old(at), *old(buffer_space)),
        command_body matches Some(c) ==> c.size <= c.data@.len() && c.size <= i32::MAX,
    ensures
        command_body is None ==> *final(buffer_space) == -1 && final(buffer)@ == old(buffer)@,
        command_body matches Some(c) ==> marshalled_prefix(
            old(buffer)@,
            *old(at),
            *old(buffer_space),
            nv_write_bytes(*c),
            final(buffer)@,
            *final(at),
            *final(buffer_space),
        ),
        cursor_ok(final(buffer)@.len() as int, *final(at), *final(buffer_space)),
        final(buffer)@.len() == old(buffer)@.len(),
{
    match command_body {
        None => {
            *buffer_space = -1;
        },
        Some(c) => {
            let ghost st0 = (buffer@, *at, *buffer_space);
            marshal_u32(buffer, at, c.nvIndex, buffer_space);
            let ghost st1 = (buffer@, *at, *buffer_space);
            marshal_u32(buffer, at, c.offset, buffer_space);
            proof {
                lemma_prefix_then(st0, be32_bytes(c.nvIndex), st1, be32_bytes(c.offset), (buffer@, *at, *buffer_space));
            }
            let ghost st2 = (buffer@, *at, *buffer_space);
            marshal_u32(buffer, at, c.size, buffer_space);
            proof {
                lemma_prefix_then(st0, be32_bytes(c.nvIndex) + be32_bytes(c.offset), st2, be32_bytes(c.size), (buffer@, *at, *buffer_space));
            }
            let ghost st3 = (buffer@, *at, *buffer_space);
            marshal_blob(buffer, at, c.data.as_slice(), c.size as usize, buffer_space);
            proof {
                lemma_prefix_then(st0, be32_bytes(c.nvIndex) + be32_bytes(c.offset) + be32_bytes(c.size), st3, c.data@.take(c.size as int), (buffer@, *at, *buffer_space));
            }
        },
    }
}

/// The encoded NV_DefineSpace parameters: a TPM_NV_DATA_PUBLIC with the
/// index, the read and write PCR policies, the permissions, three cleared
/// flags and the size, followed by twenty zero bytes.
pub open spec fn nv_define_space_bytes(c: tpm1_nv_define_space_cmd) -> Seq<u8>
    recommends
        c.auth_policy is Some,
{
    be16_bytes(TPM_TAG_NV_DATA_PUBLIC) + be32_bytes(c.nvIndex) + nv_auth_policy_bytes(
        c.auth_policy->0,
    ) + be16_bytes(TPM_TAG_NV_ATTRIBUTES) + be32_bytes(c.perm) + seq![0u8] + seq![0u8] + seq![0u8]
        + be32_bytes(c.size) + be32_bytes(0) + be32_bytes(0) + be32_bytes(0) + be32_bytes(0)
        + be32_bytes(0)
}

/// Writes the space definition; without parameters, or without a PCR
/// policy, the room becomes -1.
pub fn marshal_nv_define_space(
    buffer: &mut [u8],
    at: &mut usize,
    command_body: Option<&tpm1_nv_define_space_cmd>,
    buffer_space: &mut i32,
)
    requires
        cursor_ok(old(buffer).len() as int, *old(at), *old(buffer_space)),
    ensures
        command_body is None ==> *final(buffer_space) == -1 && final(buffer)@ == old(buffer)@,
        command_body matches Some(c) ==> (c.auth_policy is None ==> *final(buffer_space) == -1
            && written_within(
            old(buffer)@,
            final(buffer)@,
            *old(at) as int,
            *old(buffer_space) as int,
            be16_bytes(TPM_TAG_NV_DATA_PUBLIC) + be32_bytes(c.nvIndex),
        ) && prefix_written(
            old(buffer)@,
            final(buffer)@,
            *old(at) as int,
            *old(buffer_space) as int,
            be16_bytes(TPM_TAG_NV_DATA_PUBLIC) + be32_bytes(c.nvIndex),
        )),
        command_body matches Some(c) ==> (c.auth_policy is Some ==> marshalled_prefix(
            old(buffer)@,
            *old(at),
            *old(buffer_space),
            nv_define_space_bytes(*c),
            final(buffer)@,
            *final(at),
            *final(buffer_space),
        )),
        cursor_ok(final(buffer)@.len() as int, *final(at), *final(buffer_space)),
        final(buffer)@.len() == old(buffer)@.len(),
{
    match command_body {
        None => {
            *buffer_space = -1;
        },
        Some(c) => {
            let ghost pre0 = (buffer@, *at, *buffer_space);
            marshal_u16(buffer, at, TPM_TAG_NV_DATA_PUBLIC, buffer_space);
            let ghost pre1 = (buffer@, *at, *buffer_space);
            marshal_u32(buffer, at, c.nvIndex, buffer_space);
            proof {
                lemma_prefix_then(pre0, be16_bytes(TPM_TAG_NV_DATA_PUBLIC), pre1, be32_bytes(c.nvIndex), (buffer@, *at, *buffer_space));
            }
            match &c.auth_policy {
                None => {
                    proof {
                        lemma_marshalled_within(pre0.0, pre0.1, pre0.2, be16_bytes(TPM_TAG_NV_DATA_PUBLIC) + be32_bytes(c.nvIndex), buffer@, *at, *buffer_space);
                        lemma_prefix_whole(pre0.0, pre0.1, pre0.2, be16_bytes(TPM_TAG_NV_DATA_PUBLIC) + be32_bytes(c.nvIndex), buffer@, *at, *buffer_space);
                    }
                    *buffer_space = -1;
                },
                Some(p) => {
                    let policy = encode_nv_auth_policy(p);
                    assert(policy@.take(52) =~= policy@);
                    let ghost st0 = (buffer@, *at, *buffer_space);
                    marshal_blob(buffer, at, policy.as_slice(), 52, buffer_space);
                    let ghost st1 = (buffer@, *at, *buffer_space);
                    marshal_u16(buffer, at, TPM_TAG_NV_ATTRIBUTES, buffer_space);
                    proof {
                        lemma_prefix_then(st0, policy@.take(52), st1, be16_bytes(TPM_TAG_NV_ATTRIBUTES), (buffer@, *at, *buffer_space));
                    }
                    let ghost st2 = (buffer@, *at, *buffer_space);
                    marshal_u32(buffer, at, c.perm, buffer_space);
                    proof {
                        lemma_prefix_then(st0, policy@.take(52) + be16_bytes(TPM_TAG_NV_ATTRIBUTES), st2, be32_bytes(c.perm), (buffer@, *at, *buffer_space));
                    }
                    let ghost st3 = (buffer@, *at, *buffer_space);
                    marshal_u8(buffer, at, 0, buffer_space);
                    proof {
                        lemma_prefix_then(st0, policy@.take(52) + be16_bytes(TPM_TAG_NV_ATTRIBUTES) + be32_bytes(c.perm), st3, seq![0u8], (buffer@, *at, *buffer_space));
                    }
                    let ghost st4 = (buffer@, *at, *buffer_space);
                    marshal_u8(buffer, at, 0, buffer_space);
                    proof {
                        lemma_prefix_then(st0, policy@.take(52) + be16_bytes(TPM_TAG_NV_ATTRIBUTES) + be32_bytes(c.perm) + seq![0u8], st4, seq![0u8], (buffer@, *at, *buffer_space));
                    }
                    let ghost st5 = (buffer@, *at, *buffer_space);
                    marshal_u8(buffer, at, 0, buffer_space);
                    proof {
                        lemma_prefix_then(st0, policy@.take(52) + be16_bytes(TPM_TAG_NV_ATTRIBUTES) + be32_bytes(c.perm) + seq![0u8] + seq![0u8], st5, seq![0u8], (buffer@, *at, *buffer_space));
                    }
                    let ghost st6 = (buffer@, *at, *buffer_space);
                    marshal_u32(buffer, at, c.size, buffer_space);
                    proof {
                        lemma_prefix_then(st0, policy@.take(52) + be16_bytes(TPM_TAG_NV_ATTRIBUTES) + be32_bytes(c.perm) + seq![0u8] + seq![0u8] + seq![0u8], st6, be32_bytes(c.size), (buffer@, *at, *buffer_space));
                    }
                    let ghost st7 = (buffer@, *at, *buffer_space);
                    marshal_u32(buffer, at, 0, buffer_space);
                    proof {
                        lemma_prefix_then(st0, policy@.take(52) + be16_bytes(TPM_TAG_NV_ATTRIBUTES) + be32_bytes(c.perm) + seq![0u8] + seq![0u8] + seq![0u8] + be32_bytes(c.size), st7, be32_bytes(0), (buffer@, *at, *buffer_space));
                    }
                    let ghost st8 = (buffer@, *at, *buffer_space);
                    marshal_u32(buffer, at, 0, buffer_space);
                    proof {
                        lemma_prefix_then(st0, policy@.take(52) + be16_bytes(TPM_TAG_NV_ATTRIBUTES) + be32_bytes(c.perm) + seq![0u8] + seq![0u8] + seq![0u8] + be32_bytes(c.size) + be32_bytes(0), st8, be32_bytes(0), (buffer@, *at, *buffer_space));
                    }
                    let ghost st9 = (buffer@, *at, *buffer_space);
                    marshal_u32(buffer, at, 0, buffer_space);
                    proof {
                        lemma_prefix_then(st0, policy@.take(52) + be16_bytes(TPM_TAG_NV_ATTRIBUTES) + be32_bytes(c.perm) + seq![0u8] + seq![0u8] + seq![0u8] + be32_bytes(c.size) + be32_bytes(0) + be32_bytes(0), st9, be32_bytes(0), (buffer@, *at, *buffer_space));
                    }
                    let ghost st10 = (buffer@, *at, *buffer_space);
                    marshal_u32(buffer, at, 0, buffer_space);
                    proof {
                        lemma_prefix_then(st0, policy@.take(52) + be16_bytes(TPM_TAG_NV_ATTRIBUTES) + be32_bytes(c.perm) + seq![0u8] + seq![0u8] + seq![0u8] + be32_bytes(c.size) + be32_bytes(0) + be32_bytes(0) + be32_bytes(0), st10, be32_bytes(0), (buffer@, *at, *buffer_space));
                    }
                    let ghost st11 = (buffer@, *at, *buffer_space);
                    marshal_u32(buffer, at, 0, buffer_space);
                    proof {
                        lemma_prefix_then(st0, policy@.take(52) + be16_bytes(TPM_TAG_NV_ATTRIBUTES) + be32_bytes(c.perm) + seq![0u8] + seq![0u8] + seq![0u8] + be32_bytes(c.size) + be32_bytes(0) + be32_bytes(0) + be32_bytes(0) + be32_bytes(0), st11, be32_bytes(0), (buffer@, *at, *buffer_space));
                    }
                    proof {
                        lemma_prefix_then(
                            pre0,
                            be16_bytes(TPM_TAG_NV_DATA_PUBLIC) + be32_bytes(c.nvIndex),
                            st0,
                            policy@.take(52) + be16_bytes(TPM_TAG_NV_ATTRIBUTES) + be32_bytes(c.perm) + seq![0u8] + seq![0u8] + seq![0u8] + be32_bytes(c.size) + be32_bytes(0) + be32_bytes(0) + be32_bytes(0) + be32_bytes(0) + be32_bytes(0),
                            (buffer@, *at, *buffer_space),
                        );
                        assert(be16_bytes(TPM_TAG_NV_DATA_PUBLIC) + be32_bytes(c.nvIndex) + (policy@.take(52) + be16_bytes(TPM_TAG_NV_ATTRIBUTES) + be32_bytes(c.perm) + seq![0u8] + seq![0u8] + seq![0u8] + be32_bytes(c.size) + be32_bytes(0) + be32_bytes(0) + be32_bytes(0) + be32_bytes(0) + be32_bytes(0)) =~= nv_define_space_bytes(*c));
                    }
                },
            }
        },
    }
}

/// The parameters of a Startup command.
pub open spec fn startup_bytes(c: tpm1_startup_cmd) -> Seq<u8> {
    be16_bytes(c.startup_type)
}

/// Writes the startup type; without parameters the room becomes -1.
pub fn marshal_startup(
    buffer: &mut [u8],
    at: &mut usize,
    command_body: Option<&tpm1_startup_cmd>,
    buffer_space: &mut i32,
)
    requires
        cursor_ok(old(buffer).len() as int, *old(at), *old(buffer_space)),
    ensures
        command_body is None ==> *final(buffer_space) == -1 && final(buffer)@ == old(buffer)@,
        command_body matches Some(c) ==> marshalled_prefix(
            old(buffer)@,
            *old(at),
            *old(buffer_space),
            startup_bytes(*c),
            final(buffer)@,
            *final(at),
            *final(buffer_space),
        ),
        cursor_ok(final(buffer)@.len() as int, *final(at), *final(buffer_space)),
        final(buffer)@.len() == old(buffer)@.len(),
{
    match command_body {
        None => {
            *buffer_space = -1;
        },
        Some(c) => {
            marshal_u16(buffer, at, c.startup_type, buffer_space);
        },
    }
}

/// The parameters that `command` carries, or `None` when this layer does
/// not send the command or its parameters are missing.
pub open spec fn tpm1_body_bytes(command: u32, body: Tpm1CommandBody) -> Option<Seq<u8>> {
    if command == TPM_ORD_ForceClear || command == TPM_ORD_PhysicalEnable || command
        == TPM_ORD_SaveState {
        Some(Seq::empty())
    } else if command == TSC_ORD_PhysicalPresence {
        match body {
            Tpm1CommandBody::PhysicalPresence(c) => Some(physical_presence_bytes(c)),
            _ => None,
        }
    } else if command == TPM_ORD_NV_ReadValue {
        match body {
            Tpm1CommandBody::NvRead(c) => Some(nv_read_bytes(c)),
            _ => None,
        }
    } else if command == TPM_ORD_NV_WriteValue {
        match body {
            Tpm1CommandBody::NvWrite(c) => Some(nv_write_bytes(c)),
            _ => None,
        }
    } else if command == TPM_ORD_NV_DefineSpace {
        match body {
            Tpm1CommandBody::NvDefineSpace(c) => if c.auth_policy is Some {
                Some(nv_define_space_bytes(c))
            } else {
                None
            },
            _ => None,
        }
    } else if command == TPM_ORD_Startup {
        match body {
            Tpm1CommandBody::Startup(c) => Some(startup_bytes(c)),
            _ => None,
        }
    } else {
        None
    }
}

/// The bytes the writers begin to put down for `command`: its parameters
/// when they can be built; for a space definition without a PCR policy the
/// structure tag and index written before the missing policy is noticed;
/// else nothing.
pub open spec fn tpm1_body_attempt(command: u32, body: Tpm1CommandBody) -> Seq<u8> {
    match tpm1_body_bytes(command, body) {
        Some(b) => b,
        None => if command == TPM_ORD_NV_DefineSpace && body is NvDefineSpace {
            be16_bytes(TPM_TAG_NV_DATA_PUBLIC) + be32_bytes(body->NvDefineSpace_0.nvIndex)
        } else {
            Seq::empty()
        },
    }
}

/// The ten header bytes: tag, total size and command (or response) code.
pub open spec fn header_bytes(tag: u16, size: u32, code: u32) -> Seq<u8> {
    be16_bytes(tag) + be32_bytes(size) + be32_bytes(code)
}

/// A header reads back as it was written: its tag, size and code sit at
/// bytes 0, 2 and 6 of whatever follows it.
pub proof fn lemma_header_roundtrip(tag: u16, size: u32, code: u32, rest: Seq<u8>)
    ensures
        be16_at(header_bytes(tag, size, code) + rest, 0) == tag,
        be32_at(header_bytes(tag, size, code) + rest, 2) == size,
        be32_at(header_bytes(tag, size, code) + rest, 6) == code,
{
    let h = header_bytes(tag, size, code) + rest;
    assert(h.subrange(0, 2) =~= be16_bytes(tag));
    assert(h.subrange(2, 6) =~= be32_bytes(size));
    assert(h.subrange(6, 10) =~= be32_bytes(code));
    lemma_be16_roundtrip(tag);
    lemma_be32_roundtrip(size);
    lemma_be32_roundtrip(code);
    assert(be16_at(h, 0) == be16_at(be16_bytes(tag), 0));
    assert(be32_at(h, 2) == be32_at(be32_bytes(size), 0));
    assert(be32_at(h, 6) == be32_at(be32_bytes(code), 0));
}

/// A complete request: the header announcing `body` and the body itself.
pub open spec fn tpm1_command_bytes(command: u32, body: Seq<u8>) -> Seq<u8> {
    header_bytes(TPM_TAG_RQU_COMMAND, (body.len() + 10) as u32, command) + body
}

/// What `tpm_marshal_command` returns: -1 when the command cannot be built
/// or does not fit, 0 when its parameters fill the buffer to the last byte
/// (no header is then written), else the length of the whole command.
pub open spec fn tpm1_marshal_result(command: u32, body: Tpm1CommandBody, buffer_size: usize) -> i32 {
    match tpm1_body_bytes(command, body) {
        None => -1i32,
        Some(b) => if b.len() > buffer_size - 10 {
            -1i32
        } else if b.len() == buffer_size - 10 {
            0i32
        } else {
            (b.len() + 10) as i32
        },
    }
}

/// The parameters can be copied: a write's data holds at least `size` bytes.
pub open spec fn tpm1_body_ok(body: Tpm1CommandBody) -> bool {
    body matches Tpm1CommandBody::NvWrite(c) ==> c.size <= c.data@.len() && c.size <= i32::MAX
}

proof fn lemma_header_then_body(buf: Seq<u8>, hdr: Seq<u8>, b: Seq<u8>)
    requires
        hdr.len() == 10,
        10 + b.len() <= buf.len(),
    ensures
        overwrite(overwrite(buf, 10, b), 0, hdr).take(10 + b.len() as int) == hdr + b,
        overwrite(overwrite(buf, 10, b), 0, hdr).skip(10 + b.len() as int) == buf.skip(
            10 + b.len() as int,
        ),
{
    assert(overwrite(overwrite(buf, 10, b), 0, hdr).take(10 + b.len() as int) =~= hdr + b);
    assert(overwrite(overwrite(buf, 10, b), 0, hdr).skip(10 + b.len() as int) =~= buf.skip(
        10 + b.len() as int,
    ));
}

/// Writes the parameters of `command` at the cursor.
fn marshal_command_body(
    command: u32,
    tpm_command_body: &Tpm1CommandBody,
    buffer: &mut [u8],
    at: &mut usize,
    body_size: &mut i32,
)
    requires
        cursor_ok(old(buffer).len() as int, *old(at), *old(body_size)),
        *old(body_size) >= 0,
        tpm1_body_ok(*tpm_command_body),
    ensures
        tpm1_body_bytes(command, *tpm_command_body) is None ==> *final(body_size) == -1
            && written_within(
            old(buffer)@,
            final(buffer)@,
            *old(at) as int,
            *old(body_size) as int,
            tpm1_body_attempt(command, *tpm_command_body),
        ) && prefix_written(
            old(buffer)@,
            final(buffer)@,
            *old(at) as int,
            *old(body_size) as int,
            tpm1_body_attempt(command, *tpm_command_body),
        ),
        tpm1_body_bytes(command, *tpm_command_body) matches Some(b) ==> marshalled_prefix(
            old(buffer)@,
            *old(at),
            *old(body_size),
            b,
            final(buffer)@,
            *final(at),
            *final(body_size),
        ),
        final(buffer)@.len() == old(buffer)@.len(),
{
    if command == TPM_ORD_ForceClear {
        marshal_force_clear(buffer, at, body_size);
        assert(old(buffer)@ =~= overwrite(old(buffer)@, *old(at) as int, Seq::empty()));
    } else if command == TPM_ORD_PhysicalEnable {
        marshal_physical_enable(buffer, at, body_size);
        assert(old(buffer)@ =~= overwrite(old(buffer)@, *old(at) as int, Seq::empty()));
    } else if command == TSC_ORD_PhysicalPresence {
        let c = match tpm_command_body {
            Tpm1CommandBody::PhysicalPresence(c) => Some(c),
            _ => None,
        };
        marshal_physical_presence(buffer, at, c, body_size);
    } else if command == TPM_ORD_NV_ReadValue {
        let c = match tpm_command_body {
            Tpm1CommandBody::NvRead(c) => Some(c),
            _ => None,
        };
        marshal_nv_read(buffer, at, c, body_size);
    } else if command == TPM_ORD_NV_WriteValue {
        let c = match tpm_command_body {
            Tpm1CommandBody::NvWrite(c) => Some(c),
            _ => None,
        };
        marshal_nv_write(buffer, at, c, body_size);
    } else if command == TPM_ORD_NV_DefineSpace {
        let c = match tpm_command_body {
            Tpm1CommandBody::NvDefineSpace(c) => Some(c),
            _ => None,
        };
        marshal_nv_define_space(buffer, at, c, body_size);
    } else if command == TPM_ORD_Startup {
        let c = match tpm_command_body {
            Tpm1CommandBody::Startup(c) => Some(c),
            _ => None,
        };
        marshal_startup(buffer, at, c, body_size);
    } else if command == TPM_ORD_SaveState {
        marshal_savestate(buffer, at, body_size);
        assert(old(buffer)@ =~= overwrite(old(buffer)@, *old(at) as int, Seq::empty()));
    } else {
        *body_size = -1;
    }
}

/// Builds `command` with its parameters in `buffer`, of which the first
/// `buffer_size` bytes may be used, and returns the command's length (see
/// `tpm1_marshal_result`).
pub fn tpm_marshal_command(
    command: u32,
    tpm_command_body: &Tpm1CommandBody,
    buffer: &mut [u8; 2048],
    buffer_size: usize,
) -> (size: i32)
    requires
        10 <= buffer_size <= 2048,
        tpm1_body_ok(*tpm_command_body),
    ensures
        size == tpm1_marshal_result(command, *tpm_command_body, buffer_size),
        size > 0 ==> final(buffer)@.take(size as int) == tpm1_command_bytes(
            command,
            tpm1_body_bytes(command, *tpm_command_body)->0,
        ),
        size > 0 ==> final(buffer)@.skip(size as int) == old(buffer)@.skip(size as int),
        size == 0 ==> final(buffer)@ == overwrite(
            old(buffer)@,
            10,
            tpm1_body_bytes(command, *tpm_command_body)->0,
        ),
        size < 0 ==> written_within(
            old(buffer)@,
            final(buffer)@,
            10,
            buffer_size - 10,
            tpm1_body_attempt(command, *tpm_command_body),
        ),
        size < 0 ==> prefix_written(
            old(buffer)@,
            final(buffer)@,
            10,
            buffer_size - 10,
            tpm1_body_attempt(command, *tpm_command_body),
        ),
        size < 0 && tpm1_body_attempt(command, *tpm_command_body).len() == 0 ==> final(buffer)@
            == old(buffer)@,
{
    let max_body_size: i32 = (buffer_size - 10) as i32;
    let mut body_size = max_body_size;
    let mut at: usize = 10;
    let ghost buf0 = buffer@;
    marshal_command_body(command, tpm_command_body, buffer, &mut at, &mut body_size);
    let ghost buf1 = buffer@;
    if body_size > 0 {
        let mut header_space: i32 = 10;
        let mut header_at: usize = 0;
        body_size = max_body_size - body_size;
        body_size = body_size + 10;
        let ghost h0 = (buffer@, 0usize, 10i32);
        marshal_u16(buffer, &mut header_at, TPM_TAG_RQU_COMMAND, &mut header_space);
        let ghost h1 = (buffer@, header_at, header_space);
        marshal_u32(buffer, &mut header_at, body_size as u32, &mut header_space);
        proof {
            lemma_prefix_then(
                h0,
                be16_bytes(TPM_TAG_RQU_COMMAND),
                h1,
                be32_bytes(body_size as u32),
                (buffer@, header_at, header_space),
            );
        }
        let ghost h2 = (buffer@, header_at, header_space);
        marshal_u32(buffer, &mut header_at, command, &mut header_space);
        proof {
            lemma_prefix_then(
                h0,
                be16_bytes(TPM_TAG_RQU_COMMAND) + be32_bytes(body_size as u32),
                h2,
                be32_bytes(command),
                (buffer@, header_at, header_space),
            );
            let b = tpm1_body_bytes(command, *tpm_command_body)->0;
            lemma_header_then_body(buf0, header_bytes(TPM_TAG_RQU_COMMAND, body_size as u32, command), b);
        }
    } else {
        proof {
            if body_size < 0 && tpm1_body_bytes(command, *tpm_command_body) is Some {
                lemma_marshalled_within(buf0, 10, max_body_size, tpm1_body_bytes(command, *tpm_command_body)->0, buffer@, at, body_size);
                lemma_prefix_whole(buf0, 10, max_body_size, tpm1_body_bytes(command, *tpm_command_body)->0, buffer@, at, body_size);
            }
            if body_size < 0 && tpm1_body_attempt(command, *tpm_command_body).len() == 0 {
                assert(buffer@ =~= buf0);
            }
        }
    }
    body_size
}

} // verus!
