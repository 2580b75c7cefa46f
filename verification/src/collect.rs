//! Collect: withdraw accrued Garage rewards to the user's wallet.
//!
//! The accrued yield is consumed in full and taxed twice: a flat 10% base
//! tax, then a progressive whale tax of 0-50% on the remainder, chosen by
//! the position's share of the total value locked. The whale tax splits
//! 30% to the team and 70% to the pool; the base tax feeds the pool whole.
//! The net payout is funded from the pool first and any shortfall is
//! minted as backstop.

use vstd::prelude::*;

use crate::consts::{
    bps_fee, calculate_whale_tax_bps, spec_bps, spec_whale_tax_bps, COLLECT_TAX_BPS,
    WHALE_TAX_TEAM_BPS,
};
use crate::error::OreError;
use crate::event::{CollectEvent, OreEvent};
use crate::garage::{spec_available, Garage};
use crate::treasury::Treasury;

verus! {

/// Everything a successful Collect changes, applied atomically by the
/// caller. The runtime transfers `from_pool` out of the treasury's token
/// balance, mints `minted` to the recipient, and mints the whale-tax team
/// portion to the team account.
#[derive(Clone, Copy, Debug)]
pub struct CollectOutcome {
    /// The position after the withdrawal.
    pub garage: Garage,

    /// The treasury after the tax credits and the pool draw.
    pub treasury: Treasury,

    /// The part of the net payout funded by the pool.
    pub from_pool: u64,

    /// The part of the net payout minted because the pool fell short.
    pub minted: u64,

    /// The event record of the withdrawal.
    pub event: CollectEvent,
}

/// The base collect tax on the gross yield.
pub open spec fn spec_collect_base_tax(available: int) -> int {
    spec_bps(available, COLLECT_TAX_BPS)
}

/// The whale tax of a withdrawal: the progressive rate for the position's
/// pre-withdrawal principal against the current TVL, applied to the
/// post-base-tax remainder.
pub open spec fn spec_collect_whale_tax(garage: Garage, treasury: Treasury, now: i64) -> int {
    let available = spec_available(garage, now);
    let after_base = available - spec_collect_base_tax(available);
    spec_bps(
        after_base,
        spec_whale_tax_bps(garage.total_deposited, treasury.total_garage_tvl) as u64,
    )
}

/// The team portion of the whale tax (30%); the rest goes to the pool.
pub open spec fn spec_collect_whale_team(garage: Garage, treasury: Treasury, now: i64) -> int {
    spec_bps(spec_collect_whale_tax(garage, treasury, now), WHALE_TAX_TEAM_BPS)
}

/// The pool balance after both tax credits, before the payout draw.
pub open spec fn spec_collect_pool_credited(garage: Garage, treasury: Treasury, now: i64) -> int {
    let available = spec_available(garage, now);
    let whale_tax = spec_collect_whale_tax(garage, treasury, now);
    let whale_pool = whale_tax - spec_collect_whale_team(garage, treasury, now);
    treasury.garage_pool + spec_collect_base_tax(available) + whale_pool
}

/// The net payout owed to the user after both taxes.
pub open spec fn spec_collect_net(garage: Garage, treasury: Treasury, now: i64) -> int {
    let available = spec_available(garage, now);
    available - spec_collect_base_tax(available) - spec_collect_whale_tax(garage, treasury, now)
}

/// The part of the net payout the pool can fund; the rest is minted.
pub open spec fn spec_collect_from_pool(garage: Garage, treasury: Treasury, now: i64) -> int {
    let pool_credited = spec_collect_pool_credited(garage, treasury, now);
    let net = spec_collect_net(garage, treasury, now);
    if net < pool_credited {
        net
    } else {
        pool_credited
    }
}

/// Whether the pool can absorb the tax credits without leaving u64 range.
pub open spec fn spec_collect_fits(garage: Garage, treasury: Treasury, now: i64) -> bool {
    spec_collect_pool_credited(garage, treasury, now) <= u64::MAX
}

/// The validation verdict of a Collect, in the order the engine tests:
/// exhaustion, accrued yield, room in the pool.
pub open spec fn spec_collect_check(garage: Garage, treasury: Treasury, now: i64) -> Option<
    OreError,
> {
    if garage.total_claimed >= garage.max_payout {
        Some(OreError::GarageExhausted)
    } else if spec_available(garage, now) == 0 {
        Some(OreError::NoRewardsAvailable)
    } else if !spec_collect_fits(garage, treasury, now) {
        Some(OreError::ArithmeticOverflow)
    } else {
        None
    }
}

/// Withdraw the rewards accrued by `garage` up to `now`.
///
/// The caller must have authenticated the position's owner; on success the
/// returned records replace the old ones as one atomic unit, on error
/// nothing changes.
pub fn process_collect(garage: Garage, treasury: Treasury, now: i64) -> (r: Result<
    CollectOutcome,
    OreError,
>)
    requires
        garage.wf(),
    ensures
        r is Err <==> spec_collect_check(garage, treasury, now) is Some,
        r matches Err(e) ==> Some(e) == spec_collect_check(garage, treasury, now),
        r matches Ok(o) ==> ({
            let available = spec_available(garage, now);
            let base_tax = spec_collect_base_tax(available);
            let whale_tax = spec_collect_whale_tax(garage, treasury, now);
            let whale_team = spec_collect_whale_team(garage, treasury, now);
            let net = spec_collect_net(garage, treasury, now);
            let from_pool = spec_collect_from_pool(garage, treasury, now);
            &&& o.garage == (Garage {
                total_claimed: (garage.total_claimed + available) as u64,
                last_action_at: now,
                ..garage
            })
            &&& o.treasury == (Treasury {
                garage_pool: (spec_collect_pool_credited(garage, treasury, now) - from_pool) as u64,
                total_garage_tvl: treasury.total_garage_tvl,
            })
            &&& o.from_pool == from_pool
            &&& o.minted == net - from_pool
            &&& o.event == (CollectEvent {
                disc: OreEvent::Collect.spec_code(),
                authority: garage.authority,
                gross_amount: available as u64,
                net_amount: net as u64,
                base_tax: base_tax as u64,
                whale_tax: whale_tax as u64,
                whale_tax_team: whale_team as u64,
                whale_tax_pool: (whale_tax - whale_team) as u64,
                new_total_claimed: o.garage.total_claimed,
                is_exhausted: if o.garage.total_claimed >= o.garage.max_payout {
                    1u8
                } else {
                    0u8
                },
                ts: now,
            })
        }),
        // Cap consistency and the exhaustion ceiling are preserved, and the
        // cumulative fields never decrease; the principal is untouched.
        r matches Ok(o) ==> o.garage.wf() && o.garage.total_deposited == garage.total_deposited
            && garage.total_claimed <= o.garage.total_claimed,
{
    if garage.total_claimed >= garage.max_payout {
        return Err(OreError::GarageExhausted);
    }
    let available = garage.calculate_available(now);
    if available == 0 {
        return Err(OreError::NoRewardsAvailable);
    }

    // Base collect tax, then the whale tax on what remains. The whale rate
    // is read off the pre-withdrawal principal and the current TVL.
    let base_tax: u64 = bps_fee(available, COLLECT_TAX_BPS);
    let after_base: u64 = available - base_tax;
    let whale_bps: u64 = calculate_whale_tax_bps(garage.total_deposited, treasury.total_garage_tvl);
    let whale_tax: u64 = bps_fee(after_base, whale_bps);
    let whale_team: u64 = bps_fee(whale_tax, WHALE_TAX_TEAM_BPS);
    let whale_pool: u64 = whale_tax - whale_team;
    let net: u64 = after_base - whale_tax;

    // Room in the pool for both tax credits.
    let pool_credited128: u128 = (treasury.garage_pool as u128) + (base_tax as u128) + (
    whale_pool as u128);
    if pool_credited128 > u64::MAX as u128 {
        return Err(OreError::ArithmeticOverflow);
    }
    let pool_credited: u64 = pool_credited128 as u64;

    // Fund the payout from the pool first; mint only the shortfall.
    let from_pool: u64 = if net < pool_credited {
        net
    } else {
        pool_credited
    };
    let minted: u64 = net - from_pool;

    // The gross amount never exceeds the remaining payout, so the claim
    // total stays within the cap.
    let new_garage = Garage {
        total_claimed: garage.total_claimed + available,
        last_action_at: now,
        ..garage
    };
    let new_treasury = Treasury {
        garage_pool: pool_credited - from_pool,
        total_garage_tvl: treasury.total_garage_tvl,
    };
    let event = CollectEvent {
        disc: OreEvent::Collect.code(),
        authority: garage.authority,
        gross_amount: available,
        net_amount: net,
        base_tax,
        whale_tax,
        whale_tax_team: whale_team,
        whale_tax_pool: whale_pool,
        new_total_claimed: new_garage.total_claimed,
        is_exhausted: if new_garage.total_claimed >= new_garage.max_payout {
            1
        } else {
            0
        },
        ts: now,
    };
    Ok(
        CollectOutcome {
            garage: new_garage,
            treasury: new_treasury,
            from_pool,
            minted,
            event,
        },
    )
}

} // verus!
