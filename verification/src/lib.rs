//! A proof-of-stake staking, auction, and era-stepping ledger.
//!
//! The crate tracks validators, their delegators, bonded stake, a
//! time-locked unbonding queue, and per-era reward distribution, all
//! governed by an immutable [`config::EngineConfig`] policy bundle.
//! Every operation is a deterministic, atomic transition: it is either
//! applied in full or rejected with a [`error::LedgerError`], and the
//! contracts on the public functions pin down exactly which.

pub mod account;
pub mod config;
pub mod engine;
pub mod error;
pub mod laws;
pub mod ledger;
pub mod rewards;
pub mod sync_config;
