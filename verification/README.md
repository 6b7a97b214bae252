# trustm

Host-side logic for the Infineon OPTIGA Trust M secure element, verified with Verus.

- `src/` is the verified library: the chip's enums and their host library values,
  the error type and status code names, the DER helpers for the chip's public keys
  and ECDSA signatures (with the round trip between `r || s` and the chip's two DER
  `INTEGER`s proved), the checks and reply handling around each chip command, and
  the helpers of the read-only health check.
- `app/` is the `trustm-check` program and the blocking chip handle, which calls the
  C host library through FFI. The argument checks, reply handling and wait decisions
  of each command, and the pass conditions of the health check, are in `src/`; app/
  keeps the I/O, the printing and the order of the checks.
- `tests/` runs the library on concrete inputs.
