//! Matching and escrow settlement core for a compute marketplace.
//!
//! Two coupled state machines: a `Match` turns a proposal into a
//! bilaterally accepted contract, and an `Escrow` custodies value for that
//! contract until exactly one terminal settlement (release, refund, or an
//! arbitrated split) pays the full held amount out.
//!
//! The operations are pure: the caller's identity and the current time come
//! in as arguments, and the value transfers that a settlement requires come
//! back as a `Payout` for the hosting ledger to perform.
pub mod address;
pub mod escrow;
pub mod matching;

pub use address::{same_address, Address};
pub use escrow::{
    create_escrow, dispute_escrow, refund_escrow, release_funds, resolve_dispute, split_amount,
    Escrow, EscrowStatus, Payout, TransactionError,
};
pub use matching::{
    accept_match_consumer, accept_match_provider, complete_match, create_match, reject_match, Match,
    MatchStatus, MatchingError,
};
