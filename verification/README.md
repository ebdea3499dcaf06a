# prototyper

Verified core of a RISC-V machine-mode firmware runtime (RustSBI prototyper
and its machine runtime), written in Verus.

- `src/` is the verified library: boot parameters and the early stack layout,
  the one-shot early console slot and its write loop, validation and dispatch
  of SBI system reset requests, SBI return values, the planning of the K3 X100
  AMP-window PMA update, and the CoVE host extension identifiers.
- `app/` is the hardware-facing side: global statics, spin locks, inline
  assembly (CSR access, cache maintenance, `wfi`), UART drivers, and the
  RustSBI trait implementations. It calls into the library for every decision.
- `tests/` exercises the library on concrete values.
