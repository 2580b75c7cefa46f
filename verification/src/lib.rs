//! Accounting core of the Garage yield faucet.
//!
//! Users convert FUEL tokens into a capped, time-accruing payout position
//! (a `Garage`), top it up through several asymmetric-fee paths, compound
//! earned yield back into it, or withdraw earned yield subject to a base tax
//! plus a progressive whale tax. All amounts are fixed-point integers
//! denominated in indivisible token units ("drops"); every operation either
//! applies in full or returns an error and changes nothing.
//!
//! Account plumbing (signatures, program-derived addresses, token transfers,
//! event emission) lives outside this crate; callers hand the operations the
//! already-loaded records and apply the returned outcome atomically.

pub mod boost;
pub mod claim_wallet;
pub mod collect;
pub mod consts;
pub mod error;
pub mod event;
pub mod fuel_up;
pub mod garage;
pub mod laws;
pub mod miner;
pub mod pubkey;
pub mod stash;
pub mod treasury;

pub use boost::process_boost;
pub use claim_wallet::process_claim_wallet;
pub use collect::process_collect;
pub use consts::calculate_whale_tax_bps;
pub use error::OreError;
pub use event::OreEvent;
pub use fuel_up::process_fuel_up;
pub use garage::Garage;
pub use miner::MinerRewards;
pub use pubkey::Pubkey;
pub use stash::process_stash;
pub use treasury::Treasury;
