//! End-to-end tests of the five operations: fee routing, accrual
//! settlement, whale tax, pool funding and every error path.

use speedway_garage::consts::{MIN_DEPOSIT, ONE_DAY, ONE_FUEL};
use speedway_garage::{
    process_boost, process_claim_wallet, process_collect, process_fuel_up, process_stash, Garage,
    MinerRewards, OreError, OreEvent, Pubkey, Treasury,
};

const T0: i64 = 1_700_000_000;

fn pk(n: u64) -> Pubkey {
    Pubkey::new(n, 0, 0, 0)
}

fn garage_at(owner: u64, total_deposited: u64, total_claimed: u64, last_action_at: i64) -> Garage {
    Garage {
        authority: pk(owner),
        referrer: pk(owner + 1000),
        total_deposited,
        total_claimed,
        max_payout: total_deposited * 365 / 100,
        last_action_at,
        created_at: last_action_at,
        direct_referrals: 0,
        lifetime_ref_earnings: 0,
    }
}

/// A 1000 FUEL deposit with a live referrer splits into 550 burn-share
/// principal, 280 pool, 100 referrer and 70 team, and the parts cover the
/// gross amount exactly.
#[test]
fn fuel_up_deposit_splits_exactly() {
    let referrer_garage = garage_at(2, 500 * ONE_FUEL, 0, T0);
    let treasury = Treasury { garage_pool: 7 * ONE_FUEL, total_garage_tvl: 500 * ONE_FUEL };
    let o = process_fuel_up(
        None,
        Some(referrer_garage),
        treasury,
        pk(1),
        pk(2),
        1000 * ONE_FUEL,
        T0,
    )
    .unwrap();

    assert_eq!(o.event.gross_amount, 1000 * ONE_FUEL);
    assert_eq!(o.event.net_amount, 550 * ONE_FUEL);
    assert_eq!(o.event.pool_fee, 280 * ONE_FUEL);
    assert_eq!(o.event.ref_fee, 100 * ONE_FUEL);
    assert_eq!(o.event.team_fee, 70 * ONE_FUEL);
    assert_eq!(
        o.event.net_amount + o.event.pool_fee + o.event.ref_fee + o.event.team_fee,
        o.event.gross_amount
    );

    // The depositor's new position.
    assert_eq!(o.garage.authority, pk(1));
    assert_eq!(o.garage.referrer, pk(2));
    assert_eq!(o.garage.total_deposited, 550 * ONE_FUEL);
    assert_eq!(o.garage.total_claimed, 0);
    assert_eq!(o.garage.max_payout, 550 * ONE_FUEL * 365 / 100);
    assert_eq!(o.garage.last_action_at, T0);
    assert_eq!(o.garage.created_at, T0);

    // The referrer earned the fee as principal, with the count bumped.
    let rg = o.referrer_garage.unwrap();
    assert_eq!(rg.total_deposited, 600 * ONE_FUEL);
    assert_eq!(rg.max_payout, 600 * ONE_FUEL * 365 / 100);
    assert_eq!(rg.lifetime_ref_earnings, 100 * ONE_FUEL);
    assert_eq!(rg.direct_referrals, 1);
    assert_eq!(rg.total_claimed, 0);

    // Pool and TVL bookkeeping.
    assert_eq!(o.treasury.garage_pool, (7 + 280) * ONE_FUEL);
    assert_eq!(o.treasury.total_garage_tvl, (500 + 550 + 100) * ONE_FUEL);
}

/// A follow-up deposit without a referrer record pays the house split:
/// 17% team, no referral credit, and the TVL grows by the net alone.
#[test]
fn fuel_up_house_split_without_referrer_record() {
    let garage = garage_at(1, 100 * ONE_FUEL, 0, T0);
    let treasury = Treasury { garage_pool: 0, total_garage_tvl: 100 * ONE_FUEL };
    let o = process_fuel_up(
        Some(garage),
        None,
        treasury,
        pk(1),
        pk(2),
        1000 * ONE_FUEL,
        T0 + ONE_DAY,
    )
    .unwrap();

    assert_eq!(o.event.team_fee, 170 * ONE_FUEL);
    assert_eq!(o.event.ref_fee, 0);
    assert_eq!(o.event.pool_fee, 280 * ONE_FUEL);
    assert_eq!(o.event.net_amount, 550 * ONE_FUEL);
    assert!(o.referrer_garage.is_none());
    assert_eq!(o.garage.total_deposited, 650 * ONE_FUEL);
    assert_eq!(o.treasury.total_garage_tvl, (100 + 550) * ONE_FUEL);
    // The yield clock restarts at the deposit.
    assert_eq!(o.garage.last_action_at, T0 + ONE_DAY);
}

/// Deposits below the minimum, self-referrals, and first deposits without
/// a referrer record are rejected with their own errors.
#[test]
fn fuel_up_rejections() {
    let treasury = Treasury { garage_pool: 0, total_garage_tvl: 0 };
    let referrer_garage = garage_at(2, 500 * ONE_FUEL, 0, T0);

    assert_eq!(
        process_fuel_up(None, None, treasury, pk(1), pk(1), MIN_DEPOSIT, T0).unwrap_err(),
        OreError::InvalidReferrer
    );
    assert_eq!(
        process_fuel_up(None, Some(referrer_garage), treasury, pk(1), pk(2), MIN_DEPOSIT - 1, T0)
            .unwrap_err(),
        OreError::DepositBelowMinimum
    );
    assert_eq!(
        process_fuel_up(None, None, treasury, pk(1), pk(2), MIN_DEPOSIT, T0).unwrap_err(),
        OreError::ReferrerNoGarage
    );

    // An exhausted position cannot be topped up.
    let exhausted = garage_at(1, 100 * ONE_FUEL, 365 * ONE_FUEL, T0);
    assert_eq!(
        process_fuel_up(Some(exhausted), None, treasury, pk(1), pk(2), MIN_DEPOSIT, T0)
            .unwrap_err(),
        OreError::GarageExhausted
    );
}

/// Compounding consumes the accrued yield whole: 5% of it feeds the pool,
/// 95% becomes principal, and the gross counts as claimed.
#[test]
fn boost_compounds_after_seven_days() {
    let garage = garage_at(1, 1000 * ONE_FUEL, 0, T0);
    let treasury = Treasury { garage_pool: 0, total_garage_tvl: 1000 * ONE_FUEL };
    let now = T0 + 7 * ONE_DAY;
    let o = process_boost(garage, treasury, now).unwrap();

    // 7 days of 1.5% on 1000 FUEL = 105 FUEL gross.
    assert_eq!(o.event.gross_amount, 105 * ONE_FUEL);
    let tax = 105 * ONE_FUEL * 500 / 10_000;
    assert_eq!(o.event.tax, tax);
    assert_eq!(o.event.net_amount, 105 * ONE_FUEL - tax);
    assert_eq!(o.garage.total_deposited, 1000 * ONE_FUEL + 105 * ONE_FUEL - tax);
    assert_eq!(o.garage.total_claimed, 105 * ONE_FUEL);
    assert_eq!(o.garage.max_payout, o.garage.total_deposited * 365 / 100);
    assert_eq!(o.garage.last_action_at, now);
    assert_eq!(o.treasury.garage_pool, tax);
    assert_eq!(o.treasury.total_garage_tvl, 1000 * ONE_FUEL + o.event.net_amount);
}

/// Withdrawing 100 FUEL of yield as 10% of a 1000 FUEL TVL: 10 base tax,
/// then the top whale tier takes 50% of the remaining 90, leaving 45 net;
/// the whale tax splits 13.5 team / 31.5 pool.
#[test]
fn collect_with_top_whale_tier() {
    // Accrue far past the cap so exactly the remaining 100 FUEL is due.
    let garage = garage_at(1, 100 * ONE_FUEL, 265 * ONE_FUEL, T0);
    let treasury = Treasury { garage_pool: 0, total_garage_tvl: 1000 * ONE_FUEL };
    let now = T0 + 100 * ONE_DAY;
    let o = process_collect(garage, treasury, now).unwrap();

    assert_eq!(o.event.gross_amount, 100 * ONE_FUEL);
    assert_eq!(o.event.base_tax, 10 * ONE_FUEL);
    assert_eq!(o.event.whale_tax, 45 * ONE_FUEL);
    assert_eq!(o.event.net_amount, 45 * ONE_FUEL);
    assert_eq!(o.event.whale_tax_team, 135 * ONE_FUEL / 10); // 13.5 FUEL
    assert_eq!(o.event.whale_tax_pool, 315 * ONE_FUEL / 10); // 31.5 FUEL

    // The position is settled and now exhausted; the principal stays.
    assert_eq!(o.garage.total_claimed, 365 * ONE_FUEL);
    assert_eq!(o.garage.total_deposited, 100 * ONE_FUEL);
    assert_eq!(o.event.is_exhausted, 1);

    // The pool was credited 10 + 31.5 FUEL and then drained into the
    // payout; the 3.5 FUEL shortfall is minted.
    assert_eq!(o.from_pool, 415 * ONE_FUEL / 10);
    assert_eq!(o.minted, 35 * ONE_FUEL / 10);
    assert_eq!(o.treasury.garage_pool, 0);
    assert_eq!(o.from_pool + o.minted, o.event.net_amount);
}

/// With a well-funded pool the whole payout comes from it and nothing is
/// minted.
#[test]
fn collect_funded_from_pool() {
    let garage = garage_at(1, 1000 * ONE_FUEL, 0, T0);
    let treasury = Treasury { garage_pool: 500 * ONE_FUEL, total_garage_tvl: 100_000 * ONE_FUEL };
    let now = T0 + ONE_DAY;
    let o = process_collect(garage, treasury, now).unwrap();

    // 15 FUEL gross, 1.5 base tax; 1% share of TVL puts the position in
    // the first whale tier: 5% of the 13.5 remainder.
    assert_eq!(o.event.gross_amount, 15 * ONE_FUEL);
    assert_eq!(o.event.base_tax, 15 * ONE_FUEL / 10);
    assert_eq!(o.event.whale_tax, 135 * ONE_FUEL / 10 * 500 / 10_000);
    assert_eq!(o.minted, 0);
    assert_eq!(o.from_pool, o.event.net_amount);
    assert_eq!(
        o.treasury.garage_pool,
        500 * ONE_FUEL + o.event.base_tax + o.event.whale_tax_pool - o.from_pool
    );
}

/// A zero total locked value never taxes whales, whatever the position.
#[test]
fn collect_zero_tvl_no_whale_tax() {
    let garage = garage_at(1, 1000 * ONE_FUEL, 0, T0);
    let treasury = Treasury { garage_pool: 0, total_garage_tvl: 0 };
    let o = process_collect(garage, treasury, T0 + ONE_DAY).unwrap();
    assert_eq!(o.event.whale_tax, 0);
    assert_eq!(o.event.net_amount, 135 * ONE_FUEL / 10);
}

/// Both Compound and Withdraw reject an exhausted position; Stash does too.
#[test]
fn exhausted_position_rejects_yield_operations() {
    let garage = garage_at(1, 100 * ONE_FUEL, 365 * ONE_FUEL, T0);
    let treasury = Treasury { garage_pool: 0, total_garage_tvl: 100 * ONE_FUEL };
    let rewards = MinerRewards { rewards_ore: ONE_FUEL, refined_ore: 0 };
    let now = T0 + 30 * ONE_DAY;

    assert_eq!(process_boost(garage, treasury, now).unwrap_err(), OreError::GarageExhausted);
    assert_eq!(process_collect(garage, treasury, now).unwrap_err(), OreError::GarageExhausted);
    assert_eq!(
        process_stash(Some(garage), treasury, rewards, now).unwrap_err(),
        OreError::GarageExhausted
    );
}

/// Without a full day of accrual there is nothing to compound or collect.
#[test]
fn same_day_operations_find_no_rewards() {
    let garage = garage_at(1, 1000 * ONE_FUEL, 0, T0);
    let treasury = Treasury { garage_pool: 0, total_garage_tvl: 1000 * ONE_FUEL };
    let now = T0 + ONE_DAY - 1;

    assert_eq!(process_boost(garage, treasury, now).unwrap_err(), OreError::NoRewardsAvailable);
    assert_eq!(
        process_collect(garage, treasury, now).unwrap_err(),
        OreError::NoRewardsAvailable
    );
}

/// Reading the available amount settles nothing: two reads at the same
/// time agree, and a day boundary is exactly where yield appears.
#[test]
fn available_is_pure_and_day_truncated() {
    let garage = garage_at(1, 1000 * ONE_FUEL, 0, T0);

    let r1 = garage.calculate_available(T0 + 5 * ONE_DAY);
    let r2 = garage.calculate_available(T0 + 5 * ONE_DAY);
    assert_eq!(r1, r2);

    assert_eq!(garage.calculate_available(T0), 0);
    assert_eq!(garage.calculate_available(T0 + ONE_DAY - 1), 0);
    assert_eq!(garage.calculate_available(T0 + ONE_DAY), 15 * ONE_FUEL);
    // A clock reading before the last settlement accrues nothing.
    assert_eq!(garage.calculate_available(T0 - ONE_DAY), 0);
}

/// Stash moves both reward balances into the principal at 0% fee and
/// zeroes the source.
#[test]
fn stash_moves_rewards_fee_free() {
    let garage = garage_at(1, 100 * ONE_FUEL, 0, T0);
    let treasury = Treasury { garage_pool: 3 * ONE_FUEL, total_garage_tvl: 100 * ONE_FUEL };
    let rewards = MinerRewards { rewards_ore: 30 * ONE_FUEL, refined_ore: 20 * ONE_FUEL };
    let now = T0 + ONE_DAY;
    let o = process_stash(Some(garage), treasury, rewards, now).unwrap();

    assert_eq!(o.event.amount, 50 * ONE_FUEL);
    assert_eq!(o.garage.total_deposited, 150 * ONE_FUEL);
    assert_eq!(o.garage.max_payout, 150 * ONE_FUEL * 365 / 100);
    assert_eq!(o.garage.last_action_at, now);
    assert_eq!(o.miner.rewards_ore, 0);
    assert_eq!(o.miner.refined_ore, 0);
    assert_eq!(o.treasury.total_garage_tvl, 150 * ONE_FUEL);
    // The pool is not touched by a stash.
    assert_eq!(o.treasury.garage_pool, 3 * ONE_FUEL);
}

/// Stash requires an existing position and a nonzero source.
#[test]
fn stash_rejections() {
    let treasury = Treasury { garage_pool: 0, total_garage_tvl: 0 };
    let rewards = MinerRewards { rewards_ore: ONE_FUEL, refined_ore: 0 };
    assert_eq!(
        process_stash(None, treasury, rewards, T0).unwrap_err(),
        OreError::GarageRequired
    );

    let garage = garage_at(1, 100 * ONE_FUEL, 0, T0);
    let empty = MinerRewards { rewards_ore: 0, refined_ore: 0 };
    assert_eq!(
        process_stash(Some(garage), treasury, empty, T0).unwrap_err(),
        OreError::NoRewardsAvailable
    );
}

/// ClaimWallet pays 80% of the gross to the wallet; the 20% haircut is
/// half burned, half team fee. It ignores positions entirely.
#[test]
fn claim_wallet_takes_haircut() {
    let rewards = MinerRewards { rewards_ore: 60 * ONE_FUEL, refined_ore: 40 * ONE_FUEL };
    let o = process_claim_wallet(rewards, pk(1), T0).unwrap();

    assert_eq!(o.event.gross_amount, 100 * ONE_FUEL);
    assert_eq!(o.event.net_amount, 80 * ONE_FUEL);
    assert_eq!(o.event.burn_amount, 10 * ONE_FUEL);
    assert_eq!(o.event.team_fee, 10 * ONE_FUEL);
    assert_eq!(o.miner.rewards_ore, 0);
    assert_eq!(o.miner.refined_ore, 0);

    let empty = MinerRewards { rewards_ore: 0, refined_ore: 0 };
    assert_eq!(process_claim_wallet(empty, pk(1), T0).unwrap_err(), OreError::NoRewardsAvailable);
}

/// Each operation stamps its event with its own wire discriminator; the
/// Garage kinds start at 10, after the lottery kinds.
#[test]
fn events_carry_their_discriminators() {
    assert_eq!(OreEvent::Reset.code(), 0);
    assert_eq!(OreEvent::Bury.code(), 1);
    assert_eq!(OreEvent::Deploy.code(), 2);
    assert_eq!(OreEvent::Liq.code(), 3);
    assert_eq!(OreEvent::FuelUp.code(), 10);
    assert_eq!(OreEvent::Boost.code(), 11);
    assert_eq!(OreEvent::Collect.code(), 12);
    assert_eq!(OreEvent::Stash.code(), 13);
    assert_eq!(OreEvent::ClaimWallet.code(), 14);

    let garage = garage_at(1, 1000 * ONE_FUEL, 0, T0);
    let treasury = Treasury { garage_pool: 0, total_garage_tvl: 1000 * ONE_FUEL };
    let o = process_boost(garage, treasury, T0 + ONE_DAY).unwrap();
    assert_eq!(o.event.disc, OreEvent::Boost.code());
    let o = process_collect(garage, treasury, T0 + ONE_DAY).unwrap();
    assert_eq!(o.event.disc, OreEvent::Collect.code());
}

/// Across a whole deposit-compound-withdraw history the cap stays at 365%
/// of the principal, the cumulative fields never shrink, and the claims
/// never pass the cap.
#[test]
fn invariants_hold_across_operations() {
    let treasury = Treasury { garage_pool: 0, total_garage_tvl: 500 * ONE_FUEL };
    let referrer_garage = garage_at(2, 500 * ONE_FUEL, 0, T0);
    let o1 = process_fuel_up(
        None,
        Some(referrer_garage),
        treasury,
        pk(1),
        pk(2),
        1000 * ONE_FUEL,
        T0,
    )
    .unwrap();

    let o2 = process_boost(o1.garage, o1.treasury, T0 + 10 * ONE_DAY).unwrap();
    assert!(o2.garage.total_deposited >= o1.garage.total_deposited);
    assert!(o2.garage.total_claimed >= o1.garage.total_claimed);
    assert_eq!(o2.garage.max_payout, o2.garage.total_deposited * 365 / 100);
    assert!(o2.garage.total_claimed <= o2.garage.max_payout);

    let o3 = process_collect(o2.garage, o2.treasury, T0 + 20 * ONE_DAY).unwrap();
    assert!(o3.garage.total_deposited >= o2.garage.total_deposited);
    assert!(o3.garage.total_claimed >= o2.garage.total_claimed);
    assert_eq!(o3.garage.max_payout, o3.garage.total_deposited * 365 / 100);
    assert!(o3.garage.total_claimed <= o3.garage.max_payout);
}
