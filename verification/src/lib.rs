//! The rules of a handful of on-chain programs (a voting system, a
//! pooled game, a token escrow, a message board, a zero-copy data
//! container, a lamport vault and a growable string store), written as
//! verified functions over the programs' account data.
//!
//! Each handler takes the account data it reads and writes as plain
//! values, checks the program's conditions in the program's order, and
//! either returns the error that the program raises (leaving every account
//! as it was, as the runtime does on a failed instruction) or updates the
//! accounts and returns the transfer that the program asks the runtime for.

pub mod address;
pub mod constraint;
pub mod data_container;
pub mod escrow;
pub mod global_stats;
pub mod message;
pub mod shart;
pub mod vault;
pub mod voting;
