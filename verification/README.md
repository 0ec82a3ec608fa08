# boltffi_bindgen

The Dart and Python binding planners of BoltFFI and the link-metadata and
packaging checks of its command-line tool, written in Verus: every function
in `src/` carries a contract that Verus proves.

- `src/ir.rs`, `src/abi.rs`: the binding's description of the Rust API and
  of its C-level calls.
- `src/dart/`: naming, the Dart and `dart:ffi` types, how the ABI is lowered
  to a Dart library (`lower.rs`), the plans of functions, records and
  streams, and the Dart expressions that read, write and measure encoded
  values (`emit.rs`).
- `src/python/`: the shapes of Python-side types.
- `src/cli/`: link flags parsed from cargo output, and the checks and
  steps of C packaging as a step function that a driver runs.
- `src/text.rs`: string building blocks shared by the renderers.
- `app/`: what is left outside the proofs: reading and writing link metadata
  as JSON, running on a process's output, and the driver that performs the
  C packaging steps.

Calls into `boltffi_ffi_rules` and into std's formatting stand behind
trusted wrappers whose contracts are stated beside them.
