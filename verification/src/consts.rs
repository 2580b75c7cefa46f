//! Numeric constants of the Garage protocol, and the whale-tax schedule.

use vstd::prelude::*;
use vstd::arithmetic::div_mod::{
    lemma_div_is_ordered, lemma_div_multiples_vanish, lemma_fundamental_div_mod, lemma_mod_bound,
};
use vstd::arithmetic::mul::{lemma_mul_inequality, lemma_mul_is_distributive_add, lemma_mul_nonnegative};

verus! {

/// The decimal precision of the FUEL token.
/// There are 100 billion indivisible units per FUEL (called "drops").
pub const TOKEN_DECIMALS: u8 = 11;

/// One FUEL token, denominated in indivisible units (10^11 drops).
pub const ONE_FUEL: u64 = 100_000_000_000;

/// The duration of one minute, in seconds.
pub const ONE_MINUTE: i64 = 60;

/// The duration of one hour, in seconds.
pub const ONE_HOUR: i64 = 60 * ONE_MINUTE;

/// The duration of one day, in seconds.
pub const ONE_DAY: i64 = 24 * ONE_HOUR;

/// The maximum token supply (5 million FUEL).
pub const MAX_SUPPLY: u64 = 5_000_000 * ONE_FUEL;

/// Denominator for fee calculations (basis points).
pub const DENOMINATOR_BPS: u64 = 10_000;

/// Total Sprint protocol fee (10% of wagered SOL).
pub const SPRINT_PROTOCOL_FEE_BPS: u64 = 1000;

/// Team fee from Sprint (3% of wagered SOL).
pub const SPRINT_TEAM_FEE_BPS: u64 = 300;

/// Treasury fee from Sprint (7% of wagered SOL).
pub const SPRINT_TREASURY_FEE_BPS: u64 = 700;

/// Fuel Up burn share (55% of deposit, removed from circulation and
/// simultaneously credited to the position as principal).
pub const FUEL_UP_BURN_BPS: u64 = 5500;

/// Pool fee from Fuel Up (28% of deposit).
pub const FUEL_UP_POOL_BPS: u64 = 2800;

/// Referral fee from Fuel Up (10% of deposit).
pub const FUEL_UP_REF_BPS: u64 = 1000;

/// Team fee from Fuel Up (7% of deposit).
pub const FUEL_UP_TEAM_BPS: u64 = 700;

/// Team fee from Fuel Up when no distinct referrer is paid (the referral
/// share is folded into the team share: 17% of deposit).
pub const FUEL_UP_HOUSE_TEAM_BPS: u64 = 1700;

/// Boost tax (5% of compounded amount).
pub const BOOST_TAX_BPS: u64 = 500;

/// Team share of the boost tax schedule (2% of compounded amount).
pub const BOOST_TEAM_BPS: u64 = 200;

/// Pool share of the boost tax schedule (3% of compounded amount).
pub const BOOST_POOL_BPS: u64 = 300;

/// Collect tax (10% of withdrawn amount).
pub const COLLECT_TAX_BPS: u64 = 1000;

/// Team share of the collect tax schedule (2% of withdrawn amount).
pub const COLLECT_TEAM_BPS: u64 = 200;

/// Pool share of the collect tax schedule (8% of withdrawn amount).
pub const COLLECT_POOL_BPS: u64 = 800;

/// Whale tax team share (30% of whale tax goes to team).
pub const WHALE_TAX_TEAM_BPS: u64 = 3000;

/// Whale tax pool share (70% of whale tax goes to pool).
pub const WHALE_TAX_POOL_BPS: u64 = 7000;

/// Wallet haircut for claiming FUEL to wallet instead of Garage (20%).
pub const WALLET_HAIRCUT_BPS: u64 = 2000;

/// Portion of wallet haircut that gets burned (50% of haircut).
pub const HAIRCUT_BURN_BPS: u64 = 5000;

/// Portion of wallet haircut that goes to team (50% of haircut).
pub const HAIRCUT_TEAM_BPS: u64 = 5000;

/// Daily yield rate (1.5% per day).
pub const DAILY_RATE_BPS: u64 = 150;

/// Maximum payout multiplier (365% of total deposited).
pub const MAX_PAYOUT_MULT: u64 = 365;

/// Minimum deposit amount (10 FUEL).
pub const MIN_DEPOSIT: u64 = 10 * ONE_FUEL;

/// The floor fee taken from `amount` at a rate of `bps` basis points.
pub open spec fn spec_bps(amount: int, bps: u64) -> int {
    amount * bps / DENOMINATOR_BPS as int
}

/// A fee at a rate within the full basis lies between zero and the amount.
pub proof fn lemma_bps_le(amount: u64, bps: u64)
    requires
        bps <= DENOMINATOR_BPS,
    ensures
        0 <= spec_bps(amount as int, bps) <= amount,
{
    let a = amount as int;
    let b = bps as int;
    let d = DENOMINATOR_BPS as int;
    lemma_mul_nonnegative(a, b);
    vstd::arithmetic::div_mod::lemma_div_pos_is_pos(a * b, d);
    lemma_mul_inequality(b, d, a);
    assert(a * b == b * a);
    assert(a * d == d * a);
    lemma_div_is_ordered(a * b, a * d, d);
    lemma_div_multiples_vanish(a, d);
}

/// Three fees whose rates together stay within the full basis never exceed
/// the amount together.
pub proof fn lemma_bps_sum_le(amount: u64, b1: u64, b2: u64, b3: u64)
    requires
        b1 + b2 + b3 <= DENOMINATOR_BPS,
    ensures
        spec_bps(amount as int, b1) + spec_bps(amount as int, b2) + spec_bps(amount as int, b3) <= amount,
{
    let a = amount as int;
    let d = DENOMINATOR_BPS as int;
    let t1 = spec_bps(amount as int, b1);
    let t2 = spec_bps(amount as int, b2);
    let t3 = spec_bps(amount as int, b3);
    lemma_fundamental_div_mod(a * b1, d);
    lemma_mod_bound(a * b1, d);
    lemma_fundamental_div_mod(a * b2, d);
    lemma_mod_bound(a * b2, d);
    lemma_fundamental_div_mod(a * b3, d);
    lemma_mod_bound(a * b3, d);
    assert(d * t1 <= a * b1);
    assert(d * t2 <= a * b2);
    assert(d * t3 <= a * b3);
    lemma_mul_is_distributive_add(a, b1 as int, b2 as int);
    lemma_mul_is_distributive_add(a, b1 + b2, b3 as int);
    assert(a * b1 + a * b2 + a * b3 == a * (b1 + b2 + b3));
    lemma_mul_inequality(b1 + b2 + b3, d, a);
    assert(a * (b1 + b2 + b3) == (b1 + b2 + b3) * a);
    assert(a * d == d * a);
    assert(d * (t1 + t2 + t3) <= d * a) by {
        lemma_mul_is_distributive_add(d, t1 + t2, t3);
        lemma_mul_is_distributive_add(d, t1, t2);
    }
    assert(t1 + t2 + t3 <= a);
}

/// The floor fee of `amount` at `bps` basis points, computed exactly in
/// 128-bit arithmetic; never exceeds `amount`.
pub fn bps_fee(amount: u64, bps: u64) -> (r: u64)
    requires
        bps <= DENOMINATOR_BPS,
    ensures
        r == spec_bps(amount as int, bps),
        r <= amount,
{
    proof {
        lemma_bps_le(amount, bps);
        assert((amount as u128) * (bps as u128) <= 0xffff_ffff_ffff_ffffu128 * 10_000)
            by (nonlinear_arith)
            requires
                amount <= 0xffff_ffff_ffff_ffffu128,
                bps <= 10_000,
        ;
    }
    ((amount as u128) * (bps as u128) / 10_000) as u64
}

/// The whale-tax rate owed by a position holding `user_balance` out of a
/// total locked value of `total_tvl`, in basis points.
///
/// The share of total value locked is measured in basis points and mapped
/// to the highest tier whose threshold is met: each whole percent of the
/// total locked value adds 5 percentage points of tax, capped at 50% from
/// a 10% share upward. A zero total locked value carries no whale tax.
pub open spec fn spec_whale_tax_bps(user_balance: u64, total_tvl: u64) -> int {
    if total_tvl == 0 {
        0
    } else {
        let share_bps = user_balance * DENOMINATOR_BPS / total_tvl as int;
        if share_bps >= 1000 {
            5000
        } else if share_bps >= 900 {
            4500
        } else if share_bps >= 800 {
            4000
        } else if share_bps >= 700 {
            3500
        } else if share_bps >= 600 {
            3000
        } else if share_bps >= 500 {
            2500
        } else if share_bps >= 400 {
            2000
        } else if share_bps >= 300 {
            1500
        } else if share_bps >= 200 {
            1000
        } else if share_bps >= 100 {
            500
        } else {
            0
        }
    }
}

/// Calculate the whale tax in BPS based on a user's Garage balance as a
/// share of the total Garage TVL.
///
/// Schedule: below 1% of TVL no whale tax; from 1% of TVL upward 5% tax per
/// whole percent of TVL held, capped at 50% once the share reaches 10%.
pub fn calculate_whale_tax_bps(user_balance: u64, total_tvl: u64) -> (r: u64)
    ensures
        r == spec_whale_tax_bps(user_balance, total_tvl),
{
    // No whale tax if the TVL is zero (also avoids division by zero).
    if total_tvl == 0 {
        return 0;
    }
    let share_bps: u128 = (user_balance as u128) * 10_000 / (total_tvl as u128);
    if share_bps >= 1000 {
        5000
    } else if share_bps >= 900 {
        4500
    } else if share_bps >= 800 {
        4000
    } else if share_bps >= 700 {
        3500
    } else if share_bps >= 600 {
        3000
    } else if share_bps >= 500 {
        2500
    } else if share_bps >= 400 {
        2000
    } else if share_bps >= 300 {
        1500
    } else if share_bps >= 200 {
        1000
    } else if share_bps >= 100 {
        500
    } else {
        0
    }
}

} // verus!
