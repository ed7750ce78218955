//! Classification of a ledger transaction as a token swap, from its log
//! messages and its token-balance snapshots.

pub mod types;
pub mod logs;
pub mod balances;
pub mod swap;
pub mod parse;
pub mod signature;
pub mod laws;
