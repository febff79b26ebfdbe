//! Accounting core of a cross-chain token bridge: amount normalization across
//! decimal precisions, a sequence counter for outbound transfers, a refilling
//! rate limiter, the outbound queue, the inbox with at-most-once release, and
//! the pause gate that every mutating operation consults.

pub mod chain_id;
pub mod config;
pub mod error;
pub mod inbox;
pub mod keys;
pub mod ledger;
pub mod normalized_amount;
pub mod outbound;
pub mod pause_gate;
pub mod rate_limit;
pub mod release_inbound;
pub mod sequence;
pub mod transfer;
