//! Verified core of the StellarSwipe trading contracts: the keyed contract
//! storage, the two-step admin hand-over, trade execution bookkeeping, the
//! fee collector's treasury time-lock, the provider leaderboard index and the
//! stop-loss / take-profit triggers.
//!
//! Accounts, tokens and contracts are identified by plain integers
//! (`AccountId`); the host environment (authorisation, ledger time, events,
//! cross-contract calls) stays with the caller, which hands the library the
//! values it read and performs the actions the library decides on.
use vstd::prelude::*;

pub mod admin;
pub mod auto_trade;
pub mod fee_collector;
pub mod governance;
pub mod leaderboard;
pub mod store;
pub mod triggers;

verus! {

/// Identifier of an account, a token contract or another contract.
pub type AccountId = u64;

} // verus!
