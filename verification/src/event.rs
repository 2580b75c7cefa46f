//! Append-only event records emitted by the operations.
//!
//! The engine builds one event per successful operation and never reads its
//! own past events; the surrounding runtime serializes and publishes them.

use vstd::prelude::*;

use crate::pubkey::Pubkey;

verus! {

/// The kinds of events the program emits. The first four belong to the
/// lottery subsystem; the Garage operations emit the last five.
#[derive(Clone, Copy, Debug, PartialEq, Eq, Structural)]
pub enum OreEvent {
    Reset,
    Bury,
    Deploy,
    Liq,
    FuelUp,
    Boost,
    Collect,
    Stash,
    ClaimWallet,
}

impl OreEvent {
    /// The wire discriminator of this event kind. The Garage kinds start
    /// at 10, leaving room after the lottery kinds.
    pub open spec fn spec_code(self) -> u64 {
        match self {
            OreEvent::Reset => 0,
            OreEvent::Bury => 1,
            OreEvent::Deploy => 2,
            OreEvent::Liq => 3,
            OreEvent::FuelUp => 10,
            OreEvent::Boost => 11,
            OreEvent::Collect => 12,
            OreEvent::Stash => 13,
            OreEvent::ClaimWallet => 14,
        }
    }

    /// The wire discriminator, as executable code.
    pub fn code(&self) -> (r: u64)
        ensures
            r == self.spec_code(),
    {
        match self {
            OreEvent::Reset => 0,
            OreEvent::Bury => 1,
            OreEvent::Deploy => 2,
            OreEvent::Liq => 3,
            OreEvent::FuelUp => 10,
            OreEvent::Boost => 11,
            OreEvent::Collect => 12,
            OreEvent::Stash => 13,
            OreEvent::ClaimWallet => 14,
        }
    }
}

/// Record of a Fuel Up (deposit).
#[derive(Clone, Copy, Debug, PartialEq, Eq, Structural)]
pub struct FuelUpEvent {
    /// The event discriminator.
    pub disc: u64,

    /// The authority (user) who deposited.
    pub authority: Pubkey,

    /// The gross deposit amount, all of which is burned.
    pub gross_amount: u64,

    /// The net amount credited to the Garage as principal.
    pub net_amount: u64,

    /// The team fee.
    pub team_fee: u64,

    /// The referral fee credited to the referrer's Garage.
    pub ref_fee: u64,

    /// The pool fee.
    pub pool_fee: u64,

    /// The referrer recorded on the depositor's Garage.
    pub referrer: Pubkey,

    /// The new total_deposited of the user's Garage.
    pub new_total_deposited: u64,

    /// The new max_payout of the user's Garage.
    pub new_max_payout: u64,

    /// The timestamp of the event.
    pub ts: i64,
}

/// Record of a Boost (compounding of accrued rewards).
#[derive(Clone, Copy, Debug, PartialEq, Eq, Structural)]
pub struct BoostEvent {
    /// The event discriminator.
    pub disc: u64,

    /// The authority (user) who boosted.
    pub authority: Pubkey,

    /// The gross rewards compounded, before the boost tax.
    pub gross_amount: u64,

    /// The net amount added to deposits, after the tax.
    pub net_amount: u64,

    /// The boost tax.
    pub tax: u64,

    /// The new total_deposited of the user's Garage.
    pub new_total_deposited: u64,

    /// The new max_payout of the user's Garage.
    pub new_max_payout: u64,

    /// The timestamp of the event.
    pub ts: i64,
}

/// Record of a Collect (withdrawal of accrued rewards).
#[derive(Clone, Copy, Debug, PartialEq, Eq, Structural)]
pub struct CollectEvent {
    /// The event discriminator.
    pub disc: u64,

    /// The authority (user) who collected.
    pub authority: Pubkey,

    /// The gross rewards withdrawn, before taxes.
    pub gross_amount: u64,

    /// The net amount paid out, after both taxes.
    pub net_amount: u64,

    /// The base collect tax.
    pub base_tax: u64,

    /// The whale tax taken from the post-base-tax remainder.
    pub whale_tax: u64,

    /// Whale tax portion sent to the team.
    pub whale_tax_team: u64,

    /// Whale tax portion sent to the pool.
    pub whale_tax_pool: u64,

    /// The new total_claimed of the user's Garage.
    pub new_total_claimed: u64,

    /// Whether the Garage is now exhausted (1) or not (0).
    pub is_exhausted: u8,

    /// The timestamp of the event.
    pub ts: i64,
}

/// Record of a Stash (fee-free transfer of mining rewards into the Garage).
#[derive(Clone, Copy, Debug, PartialEq, Eq, Structural)]
pub struct StashEvent {
    /// The event discriminator.
    pub disc: u64,

    /// The authority (user) who stashed.
    pub authority: Pubkey,

    /// The amount of FUEL stashed from mining rewards.
    pub amount: u64,

    /// The new total_deposited of the user's Garage.
    pub new_total_deposited: u64,

    /// The new max_payout of the user's Garage.
    pub new_max_payout: u64,

    /// The timestamp of the event.
    pub ts: i64,
}

/// Record of a ClaimWallet (mining rewards paid straight to the wallet,
/// with a haircut).
#[derive(Clone, Copy, Debug, PartialEq, Eq, Structural)]
pub struct ClaimWalletEvent {
    /// The event discriminator.
    pub disc: u64,

    /// The authority (user) who claimed.
    pub authority: Pubkey,

    /// The gross amount before the haircut.
    pub gross_amount: u64,

    /// The net amount paid to the wallet.
    pub net_amount: u64,

    /// The amount of the haircut that is burned.
    pub burn_amount: u64,

    /// The amount of the haircut that goes to the team.
    pub team_fee: u64,

    /// The timestamp of the event.
    pub ts: i64,
}

} // verus!
