//! Fuel Up: deposit FUEL into the caller's Garage.
//!
//! The gross deposit is split 55% burn / 28% pool / 10% referrer / 7% team
//! when a distinct referrer is paid, and 55% / 28% / 0% / 17% when the
//! referral share is folded into the team ("house") share. The burn share
//! is what the depositor keeps as principal: the whole gross amount leaves
//! circulation, and the net-of-fees remainder is credited to the position.
//! A first deposit creates the position and requires a referrer with an
//! existing Garage; the referrer earns the referral fee as principal.

use vstd::prelude::*;

use crate::consts::{
    bps_fee, lemma_bps_sum_le, spec_bps, FUEL_UP_HOUSE_TEAM_BPS, FUEL_UP_POOL_BPS, FUEL_UP_REF_BPS,
    FUEL_UP_TEAM_BPS, MIN_DEPOSIT,
};
use crate::error::OreError;
use crate::event::{FuelUpEvent, OreEvent};
use crate::garage::{
    lemma_max_payout_monotonic, spec_credit_principal, spec_max_payout, Garage,
};
use crate::pubkey::Pubkey;
use crate::treasury::Treasury;

verus! {

/// Everything a successful Fuel Up changes, applied atomically by the
/// caller. The runtime burns the full gross amount from the depositor's
/// token balance when it applies the outcome.
#[derive(Clone, Copy, Debug)]
pub struct FuelUpOutcome {
    /// The depositor's position after the deposit (created on first use).
    pub garage: Garage,

    /// The referrer's position after the referral credit, when one was
    /// passed in.
    pub referrer_garage: Option<Garage>,

    /// The treasury after the pool fee and TVL growth.
    pub treasury: Treasury,

    /// The event record of the deposit.
    pub event: FuelUpEvent,
}

/// Team fee of a deposit: 7% beside a distinct referrer payout, 17% when
/// the referral share is folded into the team share.
pub open spec fn spec_fuel_up_team_fee(amount: u64, has_referrer: bool) -> int {
    if has_referrer {
        spec_bps(amount as int, FUEL_UP_TEAM_BPS)
    } else {
        spec_bps(amount as int, FUEL_UP_HOUSE_TEAM_BPS)
    }
}

/// Referral fee of a deposit: 10% when a distinct referrer is paid,
/// otherwise nothing.
pub open spec fn spec_fuel_up_ref_fee(amount: u64, has_referrer: bool) -> int {
    if has_referrer {
        spec_bps(amount as int, FUEL_UP_REF_BPS)
    } else {
        0
    }
}

/// Pool fee of a deposit: 28%.
pub open spec fn spec_fuel_up_pool_fee(amount: u64) -> int {
    spec_bps(amount as int, FUEL_UP_POOL_BPS)
}

/// Net principal credited to the depositor: the gross amount minus the
/// team, referral and pool fees (the 55% burn share, up to rounding in the
/// depositor's favour).
pub open spec fn spec_fuel_up_net(amount: u64, has_referrer: bool) -> int {
    amount - spec_fuel_up_team_fee(amount, has_referrer)
        - spec_fuel_up_ref_fee(amount, has_referrer) - spec_fuel_up_pool_fee(amount)
}

/// The depositor's position before the net amount is credited: the
/// existing record, or a fresh one on first deposit.
pub open spec fn spec_fuel_up_base(
    garage: Option<Garage>,
    authority: Pubkey,
    referrer: Pubkey,
    now: i64,
) -> Garage {
    match garage {
        Some(g) => g,
        None => Garage {
            authority,
            referrer,
            total_deposited: 0,
            total_claimed: 0,
            max_payout: 0,
            last_action_at: now,
            created_at: now,
            direct_referrals: 0,
            lifetime_ref_earnings: 0,
        },
    }
}

/// The referrer's position after a referral credit of `ref_fee`, with the
/// direct-referral count bumped when this deposit created a new position.
pub open spec fn spec_referrer_credited(rg: Garage, ref_fee: int, creating: bool) -> Garage {
    Garage {
        total_deposited: (rg.total_deposited + ref_fee) as u64,
        max_payout: spec_max_payout(rg.total_deposited + ref_fee) as u64,
        direct_referrals: if creating {
            (rg.direct_referrals + 1) as u32
        } else {
            rg.direct_referrals
        },
        lifetime_ref_earnings: (rg.lifetime_ref_earnings + ref_fee) as u64,
        ..rg
    }
}

/// Whether every cumulative field touched by the deposit can absorb it
/// without leaving its integer range.
pub open spec fn spec_fuel_up_fits(
    garage: Option<Garage>,
    referrer_garage: Option<Garage>,
    treasury: Treasury,
    amount: u64,
) -> bool {
    let has_referrer = referrer_garage is Some;
    let ref_fee = spec_fuel_up_ref_fee(amount, has_referrer);
    let net = spec_fuel_up_net(amount, has_referrer);
    let base_td = (match garage {
        Some(g) => g.total_deposited,
        None => 0u64,
    }) as int;
    &&& base_td + net <= u64::MAX
    &&& spec_max_payout(base_td + net) <= u64::MAX
    &&& (match referrer_garage {
        Some(rg) => {
            &&& rg.total_deposited + ref_fee <= u64::MAX
            &&& spec_max_payout(rg.total_deposited + ref_fee) <= u64::MAX
            &&& rg.lifetime_ref_earnings + ref_fee <= u64::MAX
            &&& (garage is None ==> rg.direct_referrals + 1 <= u32::MAX)
        },
        None => true,
    })
    &&& treasury.garage_pool + spec_fuel_up_pool_fee(amount) <= u64::MAX
    &&& treasury.total_garage_tvl + net + ref_fee <= u64::MAX
}

/// The validation verdict of a Fuel Up, in the order the engine tests:
/// self-referral, minimum amount, first-deposit referrer requirement,
/// exhaustion of an existing position, and room in the cumulative fields.
/// A freshly created position is not subject to the exhaustion rule.
pub open spec fn spec_fuel_up_check(
    garage: Option<Garage>,
    referrer_garage: Option<Garage>,
    treasury: Treasury,
    authority: Pubkey,
    referrer: Pubkey,
    amount: u64,
) -> Option<OreError> {
    if referrer == authority {
        Some(OreError::InvalidReferrer)
    } else if amount < MIN_DEPOSIT {
        Some(OreError::DepositBelowMinimum)
    } else if garage is None && referrer_garage is None {
        Some(OreError::ReferrerNoGarage)
    } else if garage matches Some(g) && g.total_claimed >= g.max_payout {
        Some(OreError::GarageExhausted)
    } else if !spec_fuel_up_fits(garage, referrer_garage, treasury, amount) {
        Some(OreError::ArithmeticOverflow)
    } else {
        None
    }
}

/// Deposit `amount` of FUEL into the caller's Garage.
///
/// The caller must have authenticated `authority` as the owner of `garage`
/// and `referrer` as the owner of `referrer_garage`, both loaded from their
/// canonical addresses. On success the returned records replace the old
/// ones as one atomic unit; on error nothing changes. Passing no referrer
/// garage on a follow-up deposit skips the referral credit and routes its
/// share to the team instead.
pub fn process_fuel_up(
    garage: Option<Garage>,
    referrer_garage: Option<Garage>,
    treasury: Treasury,
    authority: Pubkey,
    referrer: Pubkey,
    amount: u64,
    now: i64,
) -> (r: Result<FuelUpOutcome, OreError>)
    requires
        garage matches Some(g) ==> g.authority == authority && g.wf(),
        referrer_garage matches Some(rg) ==> rg.authority == referrer && rg.wf(),
    ensures
        r is Err <==> spec_fuel_up_check(
            garage,
            referrer_garage,
            treasury,
            authority,
            referrer,
            amount,
        ) is Some,
        r matches Err(e) ==> Some(e) == spec_fuel_up_check(
            garage,
            referrer_garage,
            treasury,
            authority,
            referrer,
            amount,
        ),
        r matches Ok(o) ==> ({
            let has_referrer = referrer_garage is Some;
            let base = spec_fuel_up_base(garage, authority, referrer, now);
            let ref_fee = spec_fuel_up_ref_fee(amount, has_referrer);
            let net = spec_fuel_up_net(amount, has_referrer);
            &&& o.garage == spec_credit_principal(base, net, now)
            &&& (match referrer_garage {
                Some(rg) => o.referrer_garage == Some(
                    spec_referrer_credited(rg, ref_fee, garage is None),
                ),
                None => o.referrer_garage is None,
            })
            &&& o.treasury == (Treasury {
                garage_pool: (treasury.garage_pool + spec_fuel_up_pool_fee(amount)) as u64,
                total_garage_tvl: (treasury.total_garage_tvl + net + ref_fee) as u64,
            })
            &&& o.event == (FuelUpEvent {
                disc: OreEvent::FuelUp.spec_code(),
                authority,
                gross_amount: amount,
                net_amount: net as u64,
                team_fee: spec_fuel_up_team_fee(amount, has_referrer) as u64,
                ref_fee: ref_fee as u64,
                pool_fee: spec_fuel_up_pool_fee(amount) as u64,
                referrer: base.referrer,
                new_total_deposited: o.garage.total_deposited,
                new_max_payout: o.garage.max_payout,
                ts: now,
            })
        }),
        // Cap consistency and the exhaustion ceiling are preserved, and the
        // cumulative fields never decrease.
        r matches Ok(o) ==> o.garage.wf(),
        r matches Ok(o) ==> (garage matches Some(g) ==> g.total_deposited
            <= o.garage.total_deposited && g.total_claimed <= o.garage.total_claimed),
        r matches Ok(o) ==> (referrer_garage matches Some(rg) ==> o.referrer_garage matches Some(
            rg2,
        ) && rg2.wf() && rg.total_deposited <= rg2.total_deposited && rg.total_claimed
            <= rg2.total_claimed),
{
    if referrer == authority {
        return Err(OreError::InvalidReferrer);
    }
    if amount < MIN_DEPOSIT {
        return Err(OreError::DepositBelowMinimum);
    }
    let creating = garage.is_none();
    if creating && referrer_garage.is_none() {
        return Err(OreError::ReferrerNoGarage);
    }
    let base: Garage = match garage {
        Some(g) => {
            if g.total_claimed >= g.max_payout {
                return Err(OreError::GarageExhausted);
            }
            g
        },
        None => Garage::new(authority, referrer, now),
    };

    let has_referrer = referrer_garage.is_some();
    let team_fee: u64 = if has_referrer {
        bps_fee(amount, FUEL_UP_TEAM_BPS)
    } else {
        bps_fee(amount, FUEL_UP_HOUSE_TEAM_BPS)
    };
    let ref_fee: u64 = if has_referrer {
        bps_fee(amount, FUEL_UP_REF_BPS)
    } else {
        0
    };
    let pool_fee: u64 = bps_fee(amount, FUEL_UP_POOL_BPS);
    proof {
        if has_referrer {
            lemma_bps_sum_le(amount, FUEL_UP_TEAM_BPS, FUEL_UP_REF_BPS, FUEL_UP_POOL_BPS);
        } else {
            lemma_bps_sum_le(amount, FUEL_UP_HOUSE_TEAM_BPS, 0, FUEL_UP_POOL_BPS);
        }
    }
    let net: u64 = amount - team_fee - ref_fee - pool_fee;

    // Room in the depositor's cumulative principal and its cap.
    if base.total_deposited > u64::MAX - net {
        return Err(OreError::ArithmeticOverflow);
    }
    let new_td: u64 = base.total_deposited + net;
    let new_cap128: u128 = (new_td as u128) * 365 / 100;
    if new_cap128 > u64::MAX as u128 {
        return Err(OreError::ArithmeticOverflow);
    }

    // Room in the referrer's record, and the referral credit itself.
    let referrer_after: Option<Garage> = match referrer_garage {
        Some(rg) => {
            if rg.total_deposited > u64::MAX - ref_fee {
                return Err(OreError::ArithmeticOverflow);
            }
            let rg_td: u64 = rg.total_deposited + ref_fee;
            let rg_cap128: u128 = (rg_td as u128) * 365 / 100;
            if rg_cap128 > u64::MAX as u128 {
                return Err(OreError::ArithmeticOverflow);
            }
            if rg.lifetime_ref_earnings > u64::MAX - ref_fee {
                return Err(OreError::ArithmeticOverflow);
            }
            if creating && rg.direct_referrals == u32::MAX {
                return Err(OreError::ArithmeticOverflow);
            }
            Some(
                Garage {
                    total_deposited: rg_td,
                    max_payout: rg_cap128 as u64,
                    direct_referrals: if creating {
                        rg.direct_referrals + 1
                    } else {
                        rg.direct_referrals
                    },
                    lifetime_ref_earnings: rg.lifetime_ref_earnings + ref_fee,
                    ..rg
                },
            )
        },
        None => None,
    };

    // Room in the treasury.
    if treasury.garage_pool > u64::MAX - pool_fee {
        return Err(OreError::ArithmeticOverflow);
    }
    let tvl128: u128 = (treasury.total_garage_tvl as u128) + (net as u128) + (ref_fee as u128);
    if tvl128 > u64::MAX as u128 {
        return Err(OreError::ArithmeticOverflow);
    }

    proof {
        lemma_max_payout_monotonic(base.total_deposited as int, new_td as int);
        if let Some(rg) = referrer_garage {
            lemma_max_payout_monotonic(
                rg.total_deposited as int,
                rg.total_deposited + ref_fee,
            );
        }
    }

    let new_garage = Garage {
        total_deposited: new_td,
        max_payout: new_cap128 as u64,
        last_action_at: now,
        ..base
    };
    let new_treasury = Treasury {
        garage_pool: treasury.garage_pool + pool_fee,
        total_garage_tvl: tvl128 as u64,
    };
    let event = FuelUpEvent {
        disc: OreEvent::FuelUp.code(),
        authority,
        gross_amount: amount,
        net_amount: net,
        team_fee,
        ref_fee,
        pool_fee,
        referrer: base.referrer,
        new_total_deposited: new_garage.total_deposited,
        new_max_payout: new_garage.max_payout,
        ts: now,
    };
    Ok(
        FuelUpOutcome {
            garage: new_garage,
            referrer_garage: referrer_after,
            treasury: new_treasury,
            event,
        },
    )
}

} // verus!
