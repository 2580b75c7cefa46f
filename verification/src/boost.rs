//! Boost: compound accrued Garage rewards back into the principal.
//!
//! The accrued yield is consumed in full: the whole gross amount counts as
//! claimed, a 5% tax of it feeds the pool, and the remaining 95% is added
//! to the principal, raising the payout cap.

use vstd::prelude::*;

use crate::consts::{bps_fee, spec_bps, BOOST_TAX_BPS};
use crate::error::OreError;
use crate::event::{BoostEvent, OreEvent};
use crate::garage::{lemma_max_payout_monotonic, spec_available, spec_max_payout, Garage};
use crate::treasury::Treasury;

verus! {

/// Everything a successful Boost changes, applied atomically by the
/// caller. No tokens move: the compounded yield only exists as bookkeeping.
#[derive(Clone, Copy, Debug)]
pub struct BoostOutcome {
    /// The position after the compound.
    pub garage: Garage,

    /// The treasury after the boost tax and TVL growth.
    pub treasury: Treasury,

    /// The event record of the compound.
    pub event: BoostEvent,
}

/// Whether the principal, its cap, the pool and the TVL can absorb the
/// compound without leaving u64 range.
pub open spec fn spec_boost_fits(garage: Garage, treasury: Treasury, now: i64) -> bool {
    let available = spec_available(garage, now);
    let tax = spec_bps(available, BOOST_TAX_BPS);
    let net = available - tax;
    &&& garage.total_deposited + net <= u64::MAX
    &&& spec_max_payout(garage.total_deposited + net) <= u64::MAX
    &&& treasury.garage_pool + tax <= u64::MAX
    &&& treasury.total_garage_tvl + net <= u64::MAX
}

/// The validation verdict of a Boost, in the order the engine tests:
/// exhaustion, accrued yield, room in the cumulative fields.
pub open spec fn spec_boost_check(garage: Garage, treasury: Treasury, now: i64) -> Option<
    OreError,
> {
    if garage.total_claimed >= garage.max_payout {
        Some(OreError::GarageExhausted)
    } else if spec_available(garage, now) == 0 {
        Some(OreError::NoRewardsAvailable)
    } else if !spec_boost_fits(garage, treasury, now) {
        Some(OreError::ArithmeticOverflow)
    } else {
        None
    }
}

/// Compound the rewards accrued by `garage` up to `now`.
///
/// The caller must have authenticated the position's owner; on success the
/// returned records replace the old ones as one atomic unit, on error
/// nothing changes.
pub fn process_boost(garage: Garage, treasury: Treasury, now: i64) -> (r: Result<
    BoostOutcome,
    OreError,
>)
    requires
        garage.wf(),
    ensures
        r is Err <==> spec_boost_check(garage, treasury, now) is Some,
        r matches Err(e) ==> Some(e) == spec_boost_check(garage, treasury, now),
        r matches Ok(o) ==> ({
            let available = spec_available(garage, now);
            let tax = spec_bps(available, BOOST_TAX_BPS);
            let net = available - tax;
            &&& o.garage == (Garage {
                total_deposited: (garage.total_deposited + net) as u64,
                total_claimed: (garage.total_claimed + available) as u64,
                max_payout: spec_max_payout(garage.total_deposited + net) as u64,
                last_action_at: now,
                ..garage
            })
            &&& o.treasury == (Treasury {
                garage_pool: (treasury.garage_pool + tax) as u64,
                total_garage_tvl: (treasury.total_garage_tvl + net) as u64,
            })
            &&& o.event == (BoostEvent {
                disc: OreEvent::Boost.spec_code(),
                authority: garage.authority,
                gross_amount: available as u64,
                net_amount: net as u64,
                tax: tax as u64,
                new_total_deposited: o.garage.total_deposited,
                new_max_payout: o.garage.max_payout,
                ts: now,
            })
        }),
        // Cap consistency and the exhaustion ceiling are preserved, and the
        // cumulative fields never decrease.
        r matches Ok(o) ==> o.garage.wf() && garage.total_deposited <= o.garage.total_deposited
            && garage.total_claimed <= o.garage.total_claimed,
{
    if garage.total_claimed >= garage.max_payout {
        return Err(OreError::GarageExhausted);
    }
    let available = garage.calculate_available(now);
    if available == 0 {
        return Err(OreError::NoRewardsAvailable);
    }

    let tax: u64 = bps_fee(available, BOOST_TAX_BPS);
    let net: u64 = available - tax;

    // Room in the principal, its cap, the pool and the TVL.
    if garage.total_deposited > u64::MAX - net {
        return Err(OreError::ArithmeticOverflow);
    }
    let new_td: u64 = garage.total_deposited + net;
    let new_cap128: u128 = (new_td as u128) * 365 / 100;
    if new_cap128 > u64::MAX as u128 {
        return Err(OreError::ArithmeticOverflow);
    }
    if treasury.garage_pool > u64::MAX - tax {
        return Err(OreError::ArithmeticOverflow);
    }
    if treasury.total_garage_tvl > u64::MAX - net {
        return Err(OreError::ArithmeticOverflow);
    }

    proof {
        lemma_max_payout_monotonic(garage.total_deposited as int, new_td as int);
    }

    // The gross amount is claimed and reinvested at once; it never exceeds
    // the remaining payout, so the claim total stays within the old cap.
    let new_garage = Garage {
        total_deposited: new_td,
        total_claimed: garage.total_claimed + available,
        max_payout: new_cap128 as u64,
        last_action_at: now,
        ..garage
    };
    let new_treasury = Treasury {
        garage_pool: treasury.garage_pool + tax,
        total_garage_tvl: treasury.total_garage_tvl + net,
    };
    let event = BoostEvent {
        disc: OreEvent::Boost.code(),
        authority: garage.authority,
        gross_amount: available,
        net_amount: net,
        tax,
        new_total_deposited: new_garage.total_deposited,
        new_max_payout: new_garage.max_payout,
        ts: now,
    };
    Ok(BoostOutcome { garage: new_garage, treasury: new_treasury, event })
}

} // verus!
