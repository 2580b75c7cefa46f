//! Global properties of the accrual engine, stated and proved once.
//!
//! The per-operation contracts already carry the cap-consistency,
//! monotonicity and ceiling clauses; the lemmas here state what holds of
//! the accrual function itself, across calls and across time.

use vstd::prelude::*;

use crate::consts::{spec_whale_tax_bps, DAILY_RATE_BPS, DENOMINATOR_BPS, ONE_DAY};
use crate::garage::{spec_available, Garage};

verus! {

/// An exhausted position never yields again: once cumulative claims have
/// reached the payout cap, the claimable amount is zero at every time.
pub proof fn lemma_exhausted_no_yield(g: Garage, now: i64)
    requires
        g.total_claimed >= g.max_payout,
    ensures
        spec_available(g, now) == 0,
{
}

/// The claimable amount never exceeds what is left under the payout cap,
/// so consuming it whole keeps the cumulative claims within the cap.
pub proof fn lemma_available_within_remaining(g: Garage, now: i64)
    requires
        g.wf(),
    ensures
        g.total_claimed + spec_available(g, now) <= g.max_payout,
{
}

/// Reading the claimable amount settles nothing: two reads of the same
/// position at the same time return the same value.
pub proof fn lemma_available_idempotent(g: Garage, now: i64, r1: u64, r2: u64)
    requires
        r1 == spec_available(g, now),
        r2 == spec_available(g, now),
    ensures
        r1 == r2,
{
}

/// Accrual counts whole days only. One second short of a full day after
/// the last settlement the claimable amount still equals what it was at
/// the settlement itself, namely zero; at exactly one full day it equals
/// one day's yield, capped at the remaining payout.
pub proof fn lemma_day_truncation(g: Garage)
    requires
        g.wf(),
        g.last_action_at + ONE_DAY <= i64::MAX,
    ensures
        spec_available(g, (g.last_action_at + ONE_DAY - 1) as i64) == spec_available(
            g,
            g.last_action_at,
        ),
        spec_available(g, g.last_action_at) == 0,
        g.total_claimed < g.max_payout ==> spec_available(g, (g.last_action_at + ONE_DAY) as i64)
            == ({
            let one_day = g.total_deposited * DAILY_RATE_BPS / (DENOMINATOR_BPS as int);
            let remaining = g.max_payout - g.total_claimed;
            if one_day < remaining {
                one_day
            } else {
                remaining
            }
        }),
{
    assert(g.total_deposited * 0 == 0);
    assert(g.total_deposited * 1 == g.total_deposited);
}

/// Yield is consumed exactly once: every settling operation advances
/// `last_action_at` to its own clock reading, and a position settled at
/// `now` has nothing further claimable at `now`. Only the next whole day
/// accrues anything new.
pub proof fn lemma_settled_no_immediate_yield(g: Garage, now: i64)
    requires
        g.last_action_at == now,
    ensures
        spec_available(g, now) == 0,
{
    assert(g.total_deposited * 0 == 0);
}

/// A zero total locked value carries no whale tax, whatever the position
/// holds (and no division by zero takes place).
pub proof fn lemma_whale_tax_zero_tvl(user_balance: u64)
    ensures
        spec_whale_tax_bps(user_balance, 0) == 0,
{
}

} // verus!
