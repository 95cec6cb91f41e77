# global_cell

Cells that start empty, are initialized once, and are then read and written.

- `src/` is the verified library (Verus):
  - `state.rs`: the initialization protocol of the raw cells (the state word
    `UNINIT` / `INITING` / `INITED`, the decision taken after each read of the
    word, the spin-then-yield backoff) and its laws.
  - `protocol.rs`: the protocol across all callers of one cell, as a spec
    model, with its laws (one claimant at a time, initialized is never left,
    only the claimant leaves initializing).
  - `gate.rs`: `InitGate`, the protocol run on an atomic byte shared by threads.
  - `raw_cell.rs`: the single-owner raw cells (`RawCell`, `RawMutexCell`,
    `RawOnceCell`, `RawDirectCell`, `RawOptionCell`).
  - `init.rs`: initializers (`FnInit`, `DefaultInit`, `NoInit`).
  - `cell.rs`: the managed cells (`Cell`, `MutexCell`, `OnceCell`): lazy
    initialization, `try_init`, reads, writes, `set`, `take`.
  - `model.rs`: what each operation does to a cell's contents, and the laws
    that relate the operations.
  - `error.rs`, `traits.rs`: errors and their messages; `CellTrait`, `ManagedCell`.
- `app/` wraps the verified cells for use from many threads and from async
  code: `parking_lot` locks, the initialization loop driven by `InitGate`,
  panics of initializers caught and reported, `Display` for `CellError`.
- `tests/` exercises the library.
