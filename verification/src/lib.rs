//! A transaction processor for client accounts.
//!
//! Deposits, withdrawals, disputes, resolves and chargebacks are applied, in
//! the order given, to per-client accounts. A ledger of the deposits and
//! withdrawals seen backs the disputes. Accounts and ledger are sharded by
//! the hash of the client identifier.
//!
//! `books` states what processing does, over maps; `processor` does it, on
//! hash maps, and is verified against `books`; `laws` proves what holds of
//! every run.

pub mod books;
pub mod client_account;
pub mod laws;
pub mod processor;
pub mod shard;
pub mod transaction;
