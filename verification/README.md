# call_trace

Records and reports what the frames of an EVM transaction did: the calls and creations, their logs,
and the steps that were executed.

- `src/` is the library, verified with Verus. `store` keeps the steps of a call: the program counter
  and the opcode of every step in a dense base track, and a detail record for the steps that were
  recorded in full in a sparse overlay. `trace` and `node` describe a call and its place in the tree
  of calls, and turn it into the frames and actions of the geth and parity tracing interfaces
  (`geth`, `parity`). `laws` states what holds across these operations.
- `src/primitives.rs` lists what is relied on of `alloy_primitives`. The other trusted items are the
  opcode table of `revm` (`opcode`), the capture options of `alloy_rpc_types_trace` (`geth`), and
  two functions of `Vec` (`detail`, `store`).
- `app/` connects the library to its surroundings: conversions from the types of `revm` and to those
  of `alloy_rpc_types_trace`, iterators over steps, and copies of the trace types that serialize.
- `tests/` runs the library, in part under the interpreter of `revm`.
