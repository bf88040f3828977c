use vstd::prelude::*;

verus! {

/// Without a TPM no command can be built: always -1, nothing written.
pub fn tpm_marshal_command(
    _command: u32,
    _command_body: &[u8],
    _buffer: &mut [u8],
    _buffer_size: usize,
) -> (size: i32)
    ensures
        size == -1,
        final(_buffer)@ == old(_buffer)@,
{
    -1
}

} // verus!
