//! Ledger core of an NFT staking contract: holders deposit collectible
//! tokens of two collections, accrue fractional reward credit at a rate
//! determined by the composition of their stake, and redeem whole credits
//! for newly minted reward tokens.
//!
//! Everything here is pure state-transition logic over plain values; the
//! host chain (persistent storage, message dispatch, the cw721 ownership
//! query) lives outside and hands values in.

pub mod contract;
pub mod credit;
pub mod duration;
pub mod error;
pub mod msg;
pub mod state;
