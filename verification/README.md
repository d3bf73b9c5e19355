# z_stack

A host-side library for Texas Instruments Z-Stack coordinators, verified with Verus.

- `src/unpi/`: the UNPI frame format (`SOF | LEN | TYPE/SUBSYSTEM | COMMAND | DATA | FCS`),
  its model (`frame.rs`), parsing and writing of raw frames (`message.rs`), the codec
  (`codec.rs`), the command type and subsystem codes (`kinds.rs`), errors (`error.rs`),
  the contracts of the `bytes` buffers it works on (`buffer.rs`), and the laws that tie
  writing to reading (`laws.rs`).
- `src/generate.rs`: the command catalogue and the plan of the Rust types generated from it.
- `src/lib.rs`: the controller handle.
- `app/`: the `tokio_util` codec traits, `Display` for the errors, serde copies of the
  catalogue types, rendering of generated code with `syn`/`quote`, and async entry points.
