# zkpayroll

The state machines of a private payroll system on Soroban, as a verified
library. Every entry point is a function from the contract's storage, the
invocation it runs in (ledger time, authorizations, the pause manager's answer)
and its arguments to a typed outcome. Its contract says which outcome every
input has and what it leaves behind.

- `src/settlement_window.rs`: payroll periods with four time gates.
- `src/treasury_isolation.rs`: a balance and a reserve per company and asset.
- `src/retention_manager.rs`: how long records are kept, and when they are pruned.
- `src/payroll/`: overpayment reviews, obligation snapshots, draft approvals,
  reservation checkpoints, audit markers.
- `src/host.rs`, `src/storage.rs`, `src/access.rs`: addresses, symbols, the
  invocation, storage as a finite map, and the two guards that the contracts share.
- `src/encoding.rs`, `src/crypto.rs`: the bytes that digests are taken of, and the
  host's SHA-256, which is the one function taken on trust.

The `laws` modules hold what spans several calls: invariants, isolation, undoing,
finality. A storage entry is read and written only inside an operation's
footprint, so a caller may hand the library the entries of the footprint alone.

`app/` runs the library on the Soroban host: it loads the entries, asks the host,
writes back and publishes events.
