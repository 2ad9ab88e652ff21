//! A payment actor for a replicated ledger: it validates a `Pay` instruction
//! against its stored configuration and describes three outbound effects
//! (a burn sub-call to a sink actor, an incentive transfer to a relayer, and
//! a transfer to a community pool) for the host to execute atomically.

pub mod addr;
pub mod contract;
pub mod error;
pub mod msg;
pub mod num;
pub mod sink;
pub mod state;
pub mod types;
