//! Stash: move unclaimed mining rewards straight into the Garage, fee-free.
//!
//! Both reward balances of the miner record are consumed whole and
//! credited to the principal at 0% tax, raising the payout cap. The user
//! must already own a Garage.

use vstd::prelude::*;

use crate::error::OreError;
use crate::event::{OreEvent, StashEvent};
use crate::garage::{
    lemma_max_payout_monotonic, spec_credit_principal, spec_max_payout, Garage,
};
use crate::miner::MinerRewards;
use crate::treasury::Treasury;

verus! {

/// Everything a successful Stash changes, applied atomically by the
/// caller. No tokens move: the stashed rewards only exist as bookkeeping.
#[derive(Clone, Copy, Debug)]
pub struct StashOutcome {
    /// The position after the stash.
    pub garage: Garage,

    /// The treasury after the TVL growth.
    pub treasury: Treasury,

    /// The rewards source, zeroed.
    pub miner: MinerRewards,

    /// The event record of the stash.
    pub event: StashEvent,
}

/// The full amount a stash consumes: both reward balances together.
pub open spec fn spec_stash_amount(miner: MinerRewards) -> int {
    miner.rewards_ore + miner.refined_ore
}

/// Whether the principal, its cap and the TVL can absorb the stash
/// without leaving u64 range.
pub open spec fn spec_stash_fits(garage: Garage, treasury: Treasury, miner: MinerRewards) -> bool {
    let amount = spec_stash_amount(miner);
    &&& garage.total_deposited + amount <= u64::MAX
    &&& spec_max_payout(garage.total_deposited + amount) <= u64::MAX
    &&& treasury.total_garage_tvl + amount <= u64::MAX
}

/// The validation verdict of a Stash, in the order the engine tests:
/// a position must exist and not be exhausted, the combined rewards must
/// fit a u64 and be nonzero, and the cumulative fields must have room.
pub open spec fn spec_stash_check(
    garage: Option<Garage>,
    treasury: Treasury,
    miner: MinerRewards,
) -> Option<OreError> {
    if garage is None {
        Some(OreError::GarageRequired)
    } else if garage matches Some(g) && g.total_claimed >= g.max_payout {
        Some(OreError::GarageExhausted)
    } else if spec_stash_amount(miner) > u64::MAX {
        Some(OreError::ArithmeticOverflow)
    } else if spec_stash_amount(miner) == 0 {
        Some(OreError::NoRewardsAvailable)
    } else if garage matches Some(g) && !spec_stash_fits(g, treasury, miner) {
        Some(OreError::ArithmeticOverflow)
    } else {
        None
    }
}

/// Stash the unclaimed mining rewards of `miner` into the caller's Garage.
///
/// The caller must have authenticated the owner of both records; on
/// success the returned records replace the old ones as one atomic unit,
/// on error nothing changes.
pub fn process_stash(
    garage: Option<Garage>,
    treasury: Treasury,
    miner: MinerRewards,
    now: i64,
) -> (r: Result<StashOutcome, OreError>)
    requires
        garage matches Some(g) ==> g.wf(),
    ensures
        r is Err <==> spec_stash_check(garage, treasury, miner) is Some,
        r matches Err(e) ==> Some(e) == spec_stash_check(garage, treasury, miner),
        r matches Ok(o) ==> (garage matches Some(g) ==> ({
            let amount = spec_stash_amount(miner);
            &&& o.garage == spec_credit_principal(g, amount, now)
            &&& o.treasury == (Treasury {
                garage_pool: treasury.garage_pool,
                total_garage_tvl: (treasury.total_garage_tvl + amount) as u64,
            })
            &&& o.miner == (MinerRewards { rewards_ore: 0, refined_ore: 0 })
            &&& o.event == (StashEvent {
                disc: OreEvent::Stash.spec_code(),
                authority: g.authority,
                amount: amount as u64,
                new_total_deposited: o.garage.total_deposited,
                new_max_payout: o.garage.max_payout,
                ts: now,
            })
        })),
        // Cap consistency and the exhaustion ceiling are preserved, and the
        // cumulative fields never decrease.
        r matches Ok(o) ==> o.garage.wf() && (garage matches Some(g) ==> g.total_deposited
            <= o.garage.total_deposited && g.total_claimed == o.garage.total_claimed),
{
    let g: Garage = match garage {
        Some(g) => g,
        None => {
            return Err(OreError::GarageRequired);
        },
    };
    if g.total_claimed >= g.max_payout {
        return Err(OreError::GarageExhausted);
    }
    if miner.rewards_ore > u64::MAX - miner.refined_ore {
        return Err(OreError::ArithmeticOverflow);
    }
    let amount: u64 = miner.rewards_ore + miner.refined_ore;
    if amount == 0 {
        return Err(OreError::NoRewardsAvailable);
    }

    // Room in the principal, its cap and the TVL.
    if g.total_deposited > u64::MAX - amount {
        return Err(OreError::ArithmeticOverflow);
    }
    let new_td: u64 = g.total_deposited + amount;
    let new_cap128: u128 = (new_td as u128) * 365 / 100;
    if new_cap128 > u64::MAX as u128 {
        return Err(OreError::ArithmeticOverflow);
    }
    if treasury.total_garage_tvl > u64::MAX - amount {
        return Err(OreError::ArithmeticOverflow);
    }

    proof {
        lemma_max_payout_monotonic(g.total_deposited as int, new_td as int);
    }

    let new_garage = Garage {
        total_deposited: new_td,
        max_payout: new_cap128 as u64,
        last_action_at: now,
        ..g
    };
    let new_treasury = Treasury {
        garage_pool: treasury.garage_pool,
        total_garage_tvl: treasury.total_garage_tvl + amount,
    };
    let event = StashEvent {
        disc: OreEvent::Stash.code(),
        authority: g.authority,
        amount,
        new_total_deposited: new_garage.total_deposited,
        new_max_payout: new_garage.max_payout,
        ts: now,
    };
    Ok(
        StashOutcome {
            garage: new_garage,
            treasury: new_treasury,
            miner: MinerRewards::zeroed(),
            event,
        },
    )
}

} // verus!
