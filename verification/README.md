# time-lock-vault

A token vault that locks a depositor's funds until an unlock time, with an
early-exit penalty, an admin who can return funds in an emergency, a two-step
admin handover, and an index of active depositors kept in O(1) per change.

- `src/` is the verified library (Verus).
  - `types.rs`: addresses, vault entries, storage keys, errors, limits.
  - `storage.rs`: the operations the vault performs on its persistent storage,
    a model of what that storage holds (`VaultStorage`), its invariant, and the
    depositor index (append, swap-remove, pages) with its proofs.
  - `vault.rs`: every entry point, as a function from the caller's arguments,
    the ledger time and the stored values it reads to either an error or the
    storage operations, token transfers and event the call consists of.
  - `laws.rs`: what holds across calls, proved over the storage model.
- `app/` is the Soroban contract around the library: authorization, ledger
  time, storage reads and writes, token transfers and events.
- `tests/` drives the library through an in-memory stand-in for the host.
