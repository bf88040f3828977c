# libcros

Helpers for Chrome(OS) devices, written in Verus: every function of the
library is proved against its contract.

- `src/tlcl` is the TPM command layer (Tlcl).  `tpm12` and `tpm20` hold the
  wire formats and the command round trip of each TPM version,
  `commands::{tpm12, tpm20, stubs}` the Tlcl commands of each version and of
  a build without a TPM, and `v1_2` / `v2_0` a client per version.  Commands
  reach the device through a transport, a function from a request and the
  room for the response to a return code and the response; the contracts
  hold whatever the transport answers.  The device transfer itself is a
  state machine (`tpm_xmit_start`, `tpm_xmit_next`) that decides what to
  open, write, read and retry.
- `src/ui` holds the text user-interface logic: ANSI escape stripping,
  display widths, boxed text, headers and the arrow-key menu as a state
  machine.
- `app` performs what the library decides: it opens, writes and reads the
  TPM device, prints to the terminal, switches raw mode and reads keys.
- `tests` exercises the library on concrete values, with closures standing
  in for the TPM.
