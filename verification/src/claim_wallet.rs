//! ClaimWallet: pay unclaimed mining rewards straight to the wallet.
//!
//! The impatient path around the Garage: both reward balances are consumed
//! whole, a 20% haircut is taken, half of it burned and half paid to the
//! team, and the remaining 80% goes to the caller's wallet. The position,
//! the pool and the TVL are untouched.

use vstd::prelude::*;

use crate::consts::{bps_fee, spec_bps, HAIRCUT_BURN_BPS, WALLET_HAIRCUT_BPS};
use crate::error::OreError;
use crate::event::{ClaimWalletEvent, OreEvent};
use crate::miner::MinerRewards;
use crate::pubkey::Pubkey;

verus! {

/// Everything a successful ClaimWallet changes, applied atomically by the
/// caller. The runtime mints the net amount to the caller's wallet and the
/// team fee to the team account; the burn share is simply never minted.
#[derive(Clone, Copy, Debug)]
pub struct ClaimWalletOutcome {
    /// The rewards source, zeroed.
    pub miner: MinerRewards,

    /// The event record of the claim.
    pub event: ClaimWalletEvent,
}

/// The gross amount a wallet claim consumes: both reward balances together.
pub open spec fn spec_claim_wallet_gross(miner: MinerRewards) -> int {
    miner.rewards_ore + miner.refined_ore
}

/// The 20% haircut taken from the gross amount.
pub open spec fn spec_claim_wallet_haircut(gross: int) -> int {
    spec_bps(gross, WALLET_HAIRCUT_BPS)
}

/// The burned half of the haircut; the other half is the team fee.
pub open spec fn spec_claim_wallet_burn(haircut: int) -> int {
    spec_bps(haircut, HAIRCUT_BURN_BPS)
}

/// The validation verdict of a ClaimWallet: the combined rewards must fit
/// a u64 and be nonzero.
pub open spec fn spec_claim_wallet_check(miner: MinerRewards) -> Option<OreError> {
    if spec_claim_wallet_gross(miner) > u64::MAX {
        Some(OreError::ArithmeticOverflow)
    } else if spec_claim_wallet_gross(miner) == 0 {
        Some(OreError::NoRewardsAvailable)
    } else {
        None
    }
}

/// Claim the unclaimed mining rewards of `miner` to the wallet of
/// `authority`, with the 20% haircut.
///
/// The caller must have authenticated `authority` as the owner of the
/// miner record; on success the returned source replaces the old one
/// atomically, on error nothing changes. Works regardless of whether the
/// caller owns a Garage or how exhausted it is.
pub fn process_claim_wallet(miner: MinerRewards, authority: Pubkey, now: i64) -> (r: Result<
    ClaimWalletOutcome,
    OreError,
>)
    ensures
        r is Err <==> spec_claim_wallet_check(miner) is Some,
        r matches Err(e) ==> Some(e) == spec_claim_wallet_check(miner),
        r matches Ok(o) ==> ({
            let gross = spec_claim_wallet_gross(miner);
            let haircut = spec_claim_wallet_haircut(gross);
            let burn = spec_claim_wallet_burn(haircut);
            &&& o.miner == (MinerRewards { rewards_ore: 0, refined_ore: 0 })
            &&& o.event == (ClaimWalletEvent {
                disc: OreEvent::ClaimWallet.spec_code(),
                authority,
                gross_amount: gross as u64,
                net_amount: (gross - haircut) as u64,
                burn_amount: burn as u64,
                team_fee: (haircut - burn) as u64,
                ts: now,
            })
        }),
        // Every part of the gross amount is accounted for.
        r matches Ok(o) ==> o.event.net_amount + o.event.burn_amount + o.event.team_fee
            == spec_claim_wallet_gross(miner),
{
    if miner.rewards_ore > u64::MAX - miner.refined_ore {
        return Err(OreError::ArithmeticOverflow);
    }
    let gross: u64 = miner.rewards_ore + miner.refined_ore;
    if gross == 0 {
        return Err(OreError::NoRewardsAvailable);
    }

    let haircut: u64 = bps_fee(gross, WALLET_HAIRCUT_BPS);
    let burn_amount: u64 = bps_fee(haircut, HAIRCUT_BURN_BPS);
    let team_fee: u64 = haircut - burn_amount;
    let net_amount: u64 = gross - haircut;

    let event = ClaimWalletEvent {
        disc: OreEvent::ClaimWallet.code(),
        authority,
        gross_amount: gross,
        net_amount,
        burn_amount,
        team_fee,
        ts: now,
    };
    Ok(ClaimWalletOutcome { miner: MinerRewards::zeroed(), event })
}

} // verus!
