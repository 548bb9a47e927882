//! A single on-ledger instruction that moves a fixed quantity of native
//! value (a "tip") from one account to another.
//!
//! The library holds the instruction's whole decision surface: which
//! invocations are accepted, which error each rejected invocation reports,
//! and what the two balances are once the runtime has applied the
//! transfer. The hosting runtime binding performs the actual ledger
//! mutation and the log emissions; it supplies the library a snapshot of
//! the two accounts as plain values and obeys the verdict returned here.

pub mod account;
pub mod tip;
