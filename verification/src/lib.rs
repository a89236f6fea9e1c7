//! State machines of a private payroll system: settlement windows, per-asset
//! treasury accounting, record retention, and the payroll run's reviews,
//! snapshots, approvals and checkpoints.
//!
//! Every entry point is a function from the contract's storage, the invocation
//! (ledger time, authorizations, pause answer) and its arguments to a typed
//! outcome, and says in its contract which outcome every input has.

pub mod access;
pub mod crypto;
pub mod encoding;
pub mod host;
pub mod payroll;
pub mod retention_manager;
pub mod settlement_window;
pub mod storage;
pub mod treasury_isolation;
