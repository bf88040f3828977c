//! Serialisation of TPM 2.0 commands (see the TPM 1.2 writers, which these
//! share, for the room convention).
use vstd::prelude::*;

pub use crate::tlcl::tpm12::marshal::{
    marshal_blob, marshal_u16, marshal_u32, marshal_u8, write_be16, write_be32,
};
use crate::tlcl::bytes::{be16_bytes, be32_bytes, overwrite};
use crate::tlcl::tpm12::marshal::{
    cursor_ok, header_bytes, lemma_marshalled_then, lemma_marshalled_within, marshalled,
    marshalled_exactly, written_within,
};
use crate::tlcl::tpm20::constants::{
    TPM2_Clear, TPM_RH_PLATFORM, TPM_RS_PW, TPM_ST_NO_SESSIONS, TPM_ST_SESSIONS, Tpm2CommandBody,
    tpm2_session_attrs, tpm2_session_header,
};

verus! {

/// Writes a handle.
pub fn marshal_TPM_HANDLE(buffer: &mut [u8], at: &mut usize, value: u32, buffer_space: &mut i32)
    requires
        cursor_ok(old(buffer).len() as int, *old(at), *old(buffer_space)),
    ensures
        marshalled_exactly(
            old(buffer)@,
            *old(at),
            *old(buffer_space),
            be32_bytes(value),
            final(buffer)@,
            *final(at),
            *final(buffer_space),
        ),
{
    marshal_u32(buffer, at, value, buffer_space);
}

/// Writes a startup type.
pub fn marshal_TPM_SU(buffer: &mut [u8], at: &mut usize, value: u16, buffer_space: &mut i32)
    requires
        cursor_ok(old(buffer).len() as int, *old(at), *old(buffer_space)),
    ensures
        marshalled_exactly(
            old(buffer)@,
            *old(at),
            *old(buffer_space),
            be16_bytes(value),
            final(buffer)@,
            *final(at),
            *final(buffer_space),
        ),
{
    marshal_u16(buffer, at, value, buffer_space);
}

/// Writes an algorithm identifier.
pub fn marshal_ALG_ID(buffer: &mut [u8], at: &mut usize, value: u16, buffer_space: &mut i32)
    requires
        cursor_ok(old(buffer).len() as int, *old(at), *old(buffer_space)),
    ensures
        marshalled_exactly(
            old(buffer)@,
            *old(at),
            *old(buffer_space),
            be16_bytes(value),
            final(buffer)@,
            *final(at),
            *final(buffer_space),
        ),
{
    marshal_u16(buffer, at, value, buffer_space);
}

/// Writes a hash algorithm identifier.
pub fn marshal_TPMI_ALG_HASH(buffer: &mut [u8], at: &mut usize, value: u16, buffer_space: &mut i32)
    requires
        cursor_ok(old(buffer).len() as int, *old(at), *old(buffer_space)),
    ensures
        marshalled_exactly(
            old(buffer)@,
            *old(at),
            *old(buffer_space),
            be16_bytes(value),
            final(buffer)@,
            *final(at),
            *final(buffer_space),
        ),
{
    marshal_u16(buffer, at, value, buffer_space);
}

/// A size field left open in the buffer: its width and where it is.
pub struct tpm2_marshal_size_field {
    pub size: i32,
    pub location: usize,
}

/// Leaves room for a size field of `field_size` (2 or 4) bytes at the
/// cursor and records where it is; a width other than 2 or 4, or no room,
/// sets the room to -1.  The buffer is not written.
pub fn marshal_reserve_size_field(
    buffer: &[u8],
    at: &mut usize,
    field: &mut tpm2_marshal_size_field,
    field_size: i32,
    buffer_space: &mut i32,
)
    requires
        cursor_ok(buffer.len() as int, *old(at), *old(buffer_space)),
    ensures
        !(field_size == 2 || field_size == 4) || *old(buffer_space) < field_size ==> *final(buffer_space)
            == -1 && *final(at) == *old(at) && *final(field) == *old(field),
        (field_size == 2 || field_size == 4) && *old(buffer_space) >= field_size ==> {
            &&& *final(buffer_space) == *old(buffer_space) - field_size
            &&& *final(at) == *old(at) + field_size
            &&& final(field).size == field_size
            &&& final(field).location == *old(at)
        },
{
    if field_size != 2 && field_size != 4 {
        *buffer_space = -1;
        return ;
    }
    if *buffer_space < field_size {
        *buffer_space = -1;
        return ;
    }
    field.size = field_size;
    field.location = *at;
    *buffer_space = *buffer_space - field_size;
    *at = *at + field_size as usize;
}

/// The value a size field holds: the bytes written since it was reserved,
/// counting the field itself only when `include_size_field`.
pub open spec fn size_field_value(field: tpm2_marshal_size_field, at: usize, include_size_field: bool) -> int {
    if include_size_field {
        at - field.location
    } else {
        at - field.location - field.size
    }
}

/// The bytes a size field of the given width holds for `value`.
pub open spec fn size_field_bytes(width: i32, value: int) -> Seq<u8> {
    if width == 4 {
        be32_bytes(value as u32)
    } else {
        be16_bytes(value as u16)
    }
}

/// Fills in a reserved size field with the number of bytes written since
/// (see `size_field_value`); nothing is written once the room is -1.
pub fn marshal_fill_size_field(
    buffer: &mut [u8],
    at: &usize,
    field: &mut tpm2_marshal_size_field,
    include_size_field: bool,
    buffer_space: &i32,
)
    requires
        old(field).location <= *at,
        *buffer_space >= 0 ==> (old(field).size == 2 || old(field).size == 4),
        *buffer_space >= 0 ==> old(field).location + old(field).size <= *at <= old(buffer)@.len(),
    ensures
        *buffer_space < 0 ==> final(buffer)@ == old(buffer)@,
        *buffer_space >= 0 ==> final(buffer)@ == overwrite(
            old(buffer)@,
            old(field).location as int,
            size_field_bytes(old(field).size, size_field_value(*old(field), *at, include_size_field)),
        ),
{
    let mut size: usize = *at - field.location;
    if *buffer_space < 0 {
        return ;
    }
    if !include_size_field {
        size = size - field.size as usize;
    }
    if field.size == 4 {
        marshal_u32(buffer, &mut field.location, size as u32, &mut field.size);
    } else {
        marshal_u16(buffer, &mut field.location, size as u16, &mut field.size);
    }
}

/// The bytes of a session: its size (not counting the size field), handle,
/// nonce size and nonce, attributes, authorisation size and authorisation.
pub open spec fn session_header_bytes(h: tpm2_session_header) -> Seq<u8> {
    be32_bytes((9 + h.nonce_size + h.auth_size) as u32) + session_body_bytes(h)
}

/// A session after its size field.
pub open spec fn session_body_bytes(h: tpm2_session_header) -> Seq<u8> {
    be32_bytes(h.session_handle) + be16_bytes(h.nonce_size) + h.nonce@.take(h.nonce_size as int)
        + seq![h.attrs.0] + be16_bytes(h.auth_size) + h.auth@.take(h.auth_size as int)
}

/// The session's byte strings hold their announced sizes.
pub open spec fn session_header_ok(h: tpm2_session_header) -> bool {
    h.nonce_size <= h.nonce@.len() && h.auth_size <= h.auth@.len()
}

proof fn lemma_fill_after_reserve(buf0: Seq<u8>, at0: int, body: Seq<u8>, field: Seq<u8>)
    requires
        0 <= at0,
        at0 + 4 + body.len() <= buf0.len(),
        field.len() == 4,
    ensures
        overwrite(overwrite(buf0, at0, buf0.subrange(at0, at0 + 4) + body), at0, field) == overwrite(
            buf0,
            at0,
            field + body,
        ),
{
    assert(overwrite(overwrite(buf0, at0, buf0.subrange(at0, at0 + 4) + body), at0, field)
        =~= overwrite(buf0, at0, field + body));
}

/// Writes a session, its size field first.
pub fn marshal_session_header(
    buffer: &mut [u8],
    at: &mut usize,
    session_header: &tpm2_session_header,
    buffer_space: &mut i32,
)
    requires
        cursor_ok(old(buffer).len() as int, *old(at), *old(buffer_space)),
        session_header_ok(*session_header),
    ensures
        marshalled(
            old(buffer)@,
            *old(at),
            *old(buffer_space),
            session_header_bytes(*session_header),
            final(buffer)@,
            *final(at),
            *final(buffer_space),
        ),
{
    let mut size_field = tpm2_marshal_size_field { size: 0, location: 0 };
    let ghost st0 = (buffer@, *at, *buffer_space);
    marshal_reserve_size_field(buffer, at, &mut size_field, 4, buffer_space);
    proof {
        if st0.2 >= 4 {
            assert(buffer@ =~= overwrite(st0.0, st0.1 as int, st0.0.subrange(st0.1 as int, st0.1 + 4)));
        }
    }
    let ghost reserved = if st0.2 >= 4 {
        st0.0.subrange(st0.1 as int, st0.1 + 4)
    } else {
        Seq::<u8>::empty()
    };
    let ghost st1 = (buffer@, *at, *buffer_space);
    marshal_u32(buffer, at, session_header.session_handle, buffer_space);
    let ghost st2 = (buffer@, *at, *buffer_space);
    marshal_u16(buffer, at, session_header.nonce_size, buffer_space);
    proof {
        lemma_marshalled_then(st1, be32_bytes(session_header.session_handle), st2, be16_bytes(session_header.nonce_size), (buffer@, *at, *buffer_space));
    }
    let ghost st3 = (buffer@, *at, *buffer_space);
    marshal_blob(buffer, at, session_header.nonce.as_slice(), session_header.nonce_size as usize, buffer_space);
    proof {
        lemma_marshalled_then(st1, be32_bytes(session_header.session_handle) + be16_bytes(session_header.nonce_size), st3, session_header.nonce@.take(session_header.nonce_size as int), (buffer@, *at, *buffer_space));
    }
    let ghost st4 = (buffer@, *at, *buffer_space);
    marshal_u8(buffer, at, session_header.attrs.0, buffer_space);
    proof {
        lemma_marshalled_then(st1, be32_bytes(session_header.session_handle) + be16_bytes(session_header.nonce_size) + session_header.nonce@.take(session_header.nonce_size as int), st4, seq![session_header.attrs.0], (buffer@, *at, *buffer_space));
    }
    let ghost st5 = (buffer@, *at, *buffer_space);
    marshal_u16(buffer, at, session_header.auth_size, buffer_space);
    proof {
        lemma_marshalled_then(st1, be32_bytes(session_header.session_handle) + be16_bytes(session_header.nonce_size) + session_header.nonce@.take(session_header.nonce_size as int) + seq![session_header.attrs.0], st5, be16_bytes(session_header.auth_size), (buffer@, *at, *buffer_space));
    }
    let ghost st6 = (buffer@, *at, *buffer_space);
    marshal_blob(buffer, at, session_header.auth.as_slice(), session_header.auth_size as usize, buffer_space);
    proof {
        lemma_marshalled_then(st1, be32_bytes(session_header.session_handle) + be16_bytes(session_header.nonce_size) + session_header.nonce@.take(session_header.nonce_size as int) + seq![session_header.attrs.0] + be16_bytes(session_header.auth_size), st6, session_header.auth@.take(session_header.auth_size as int), (buffer@, *at, *buffer_space));
    }
    let ghost body = session_body_bytes(*session_header);
    assert(be32_bytes(session_header.session_handle) + be16_bytes(session_header.nonce_size) + session_header.nonce@.take(session_header.nonce_size as int) + seq![session_header.attrs.0] + be16_bytes(session_header.auth_size) + session_header.auth@.take(session_header.auth_size as int) =~= body);
    if *buffer_space >= 0 {
        proof {
            lemma_marshalled_then(st0, reserved, st1, body, (buffer@, *at, *buffer_space));
            assert(size_field.location + 4 <= *at);
        }
        let ghost before_fill = buffer@;
        marshal_fill_size_field(buffer, at, &mut size_field, false, buffer_space);
        proof {
            lemma_fill_after_reserve(st0.0, st0.1 as int, body, be32_bytes((9 + session_header.nonce_size + session_header.auth_size) as u32));
            assert(session_header_bytes(*session_header) =~= be32_bytes((9 + session_header.nonce_size + session_header.auth_size) as u32) + body);
        }
    } else {
        marshal_fill_size_field(buffer, at, &mut size_field, false, buffer_space);
    }
}

/// The parameters of TPM2_Clear: the platform hierarchy and an empty
/// password session.
pub open spec fn clear_body_bytes() -> Seq<u8> {
    be32_bytes(TPM_RH_PLATFORM) + be32_bytes(9) + be32_bytes(TPM_RS_PW) + be16_bytes(0) + seq![0u8]
        + be16_bytes(0)
}

/// The empty password session.
fn password_session() -> (h: tpm2_session_header)
    ensures
        session_header_ok(h),
        session_header_bytes(h) == be32_bytes(9) + be32_bytes(TPM_RS_PW) + be16_bytes(0) + seq![0u8]
            + be16_bytes(0),
{
    let h = tpm2_session_header {
        session_handle: TPM_RS_PW,
        nonce_size: 0,
        nonce: Vec::new(),
        attrs: tpm2_session_attrs(0),
        auth_size: 0,
        auth: Vec::new(),
    };
    assert(session_header_bytes(h) =~= be32_bytes(9) + be32_bytes(TPM_RS_PW) + be16_bytes(0)
        + seq![0u8] + be16_bytes(0));
    h
}

/// Writes the TPM2_Clear parameters; the command then travels with
/// sessions, which `tpm_tag` records.
pub fn marshal_clear(
    buffer: &mut [u8],
    at: &mut usize,
    _command_body: &Tpm2CommandBody,
    buffer_space: &mut i32,
    tpm_tag: &mut u16,
)
    requires
        cursor_ok(old(buffer).len() as int, *old(at), *old(buffer_space)),
    ensures
        *final(tpm_tag) == TPM_ST_SESSIONS,
        marshalled(
            old(buffer)@,
            *old(at),
            *old(buffer_space),
            clear_body_bytes(),
            final(buffer)@,
            *final(at),
            *final(buffer_space),
        ),
{
    *tpm_tag = TPM_ST_SESSIONS;
    let ghost st0 = (buffer@, *at, *buffer_space);
    marshal_TPM_HANDLE(buffer, at, TPM_RH_PLATFORM, buffer_space);
    let session_header = password_session();
    let ghost st1 = (buffer@, *at, *buffer_space);
    marshal_session_header(buffer, at, &session_header, buffer_space);
    proof {
        lemma_marshalled_then(
            st0,
            be32_bytes(TPM_RH_PLATFORM),
            st1,
            session_header_bytes(session_header),
            (buffer@, *at, *buffer_space),
        );
        assert(be32_bytes(TPM_RH_PLATFORM) + session_header_bytes(session_header)
            =~= clear_body_bytes());
    }
}

/// The parameters that `command` carries, or `None` when this layer does
/// not send it: TPM2_Clear is the only TPM 2.0 command built here.
pub open spec fn tpm2_body_bytes(command: u32) -> Option<Seq<u8>> {
    if command == TPM2_Clear {
        Some(clear_body_bytes())
    } else {
        None
    }
}

/// The bytes the writer begins to put down for `command`: the TPM2_Clear
/// parameters, or nothing for a command it does not build.
pub open spec fn tpm2_body_attempt(command: u32) -> Seq<u8> {
    match tpm2_body_bytes(command) {
        Some(b) => b,
        None => Seq::empty(),
    }
}

/// What `tpm_marshal_command` returns: -1 when the command cannot be built
/// or does not fit, 0 when its parameters fill the buffer to the last
/// byte, else the length of the whole command.
pub open spec fn tpm2_marshal_result(command: u32, buffer_size: usize) -> i32 {
    match tpm2_body_bytes(command) {
        None => -1i32,
        Some(b) => if b.len() > buffer_size - 10 {
            -1i32
        } else if b.len() == buffer_size - 10 {
            0i32
        } else {
            (b.len() + 10) as i32
        },
    }
}

/// A complete TPM 2.0 request: a header with the session tag announcing
/// `body`, then the body.
pub open spec fn tpm2_command_bytes(command: u32, body: Seq<u8>) -> Seq<u8> {
    header_bytes(TPM_ST_SESSIONS, (body.len() + 10) as u32, command) + body
}

proof fn lemma_header_then_body(buf: Seq<u8>, hdr: Seq<u8>, b: Seq<u8>)
    requires
        hdr.len() == 10,
        10 + b.len() <= buf.len(),
    ensures
        overwrite(overwrite(buf, 10, b), 0, hdr).take(10 + b.len() as int) == hdr + b,
        overwrite(overwrite(buf, 10, b), 0, hdr).skip(10 + b.len() as int) == buf.skip(
            10 + b.len() as int,
        ),
{
    assert(overwrite(overwrite(buf, 10, b), 0, hdr).take(10 + b.len() as int) =~= hdr + b);
    assert(overwrite(overwrite(buf, 10, b), 0, hdr).skip(10 + b.len() as int) =~= buf.skip(
        10 + b.len() as int,
    ));
}

/// Builds `command` in `buffer`, of which the first `buffer_size` bytes
/// may be used, and returns its length (see `tpm2_marshal_result`).
pub fn tpm_marshal_command(
    command: u32,
    tpm_command_body: &Tpm2CommandBody,
    buffer: &mut [u8; 2048],
    buffer_size: usize,
) -> (size: i32)
    requires
        10 <= buffer_size <= 2048,
    ensures
        size == tpm2_marshal_result(command, buffer_size),
        size > 0 ==> final(buffer)@.take(size as int) == tpm2_command_bytes(
            command,
            tpm2_body_bytes(command)->0,
        ),
        size > 0 ==> final(buffer)@.skip(size as int) == old(buffer)@.skip(size as int),
        size == 0 ==> final(buffer)@ == overwrite(old(buffer)@, 10, tpm2_body_bytes(command)->0),
        size < 0 ==> written_within(
            old(buffer)@,
            final(buffer)@,
            10,
            buffer_size - 10,
            tpm2_body_attempt(command),
        ),
        size < 0 && command != TPM2_Clear ==> final(buffer)@ == old(buffer)@,
{
    let max_body_size: i32 = (buffer_size - 10) as i32;
    let mut body_size = max_body_size;
    let mut at: usize = 10;
    let mut tpm_tag: u16 = TPM_ST_NO_SESSIONS;
    let ghost buf0 = buffer@;
    if command == TPM2_Clear {
        marshal_clear(buffer, &mut at, tpm_command_body, &mut body_size, &mut tpm_tag);
    } else {
        body_size = -1;
    }
    if body_size > 0 {
        let mut header_space: i32 = 10;
        let mut header_at: usize = 0;
        body_size = max_body_size - body_size;
        body_size = body_size + 10;
        let ghost h0 = (buffer@, 0usize, 10i32);
        marshal_u16(buffer, &mut header_at, tpm_tag, &mut header_space);
        let ghost h1 = (buffer@, header_at, header_space);
        marshal_u32(buffer, &mut header_at, body_size as u32, &mut header_space);
        proof {
            lemma_marshalled_then(
                h0,
                be16_bytes(tpm_tag),
                h1,
                be32_bytes(body_size as u32),
                (buffer@, header_at, header_space),
            );
        }
        let ghost h2 = (buffer@, header_at, header_space);
        marshal_u32(buffer, &mut header_at, command, &mut header_space);
        proof {
            lemma_marshalled_then(
                h0,
                be16_bytes(tpm_tag) + be32_bytes(body_size as u32),
                h2,
                be32_bytes(command),
                (buffer@, header_at, header_space),
            );
            lemma_header_then_body(
                buf0,
                header_bytes(TPM_ST_SESSIONS, body_size as u32, command),
                clear_body_bytes(),
            );
        }
    } else {
        proof {
            if body_size < 0 && command == TPM2_Clear {
                lemma_marshalled_within(buf0, 10, max_body_size, clear_body_bytes(), buffer@, at, body_size);
            }
            if body_size < 0 && command != TPM2_Clear {
                assert(buffer@ =~= buf0);
            }
        }
    }
    body_size
}

} // verus!
