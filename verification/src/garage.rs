//! The Garage position record and its accrual arithmetic.

use vstd::prelude::*;

use crate::consts::{DAILY_RATE_BPS, DENOMINATOR_BPS, MAX_PAYOUT_MULT, ONE_DAY};
use crate::pubkey::Pubkey;

verus! {

/// A user's faucet position in the Garage yield system.
///
/// Users deposit FUEL and earn 1.5% of their cumulative principal per whole
/// day, up to a lifetime payout cap of 365% of that principal.
#[derive(Clone, Copy, Debug, PartialEq, Eq, Structural)]
pub struct Garage {
    /// Owner wallet (authority of this position; immutable).
    pub authority: Pubkey,

    /// Referrer wallet (set on first deposit, immutable after).
    pub referrer: Pubkey,

    /// Sum of all net deposits, compounds, stash-ins and referral credits.
    /// Never decreases.
    pub total_deposited: u64,

    /// Running total of claims (withdrawn or compounded). Never decreases.
    pub total_claimed: u64,

    /// Maximum lifetime payout (365% of `total_deposited`).
    pub max_payout: u64,

    /// Timestamp of the last operation that consumed accrued yield.
    pub last_action_at: i64,

    /// Account creation timestamp (immutable).
    pub created_at: i64,

    /// Count of direct referrals.
    pub direct_referrals: u32,

    /// Total FUEL earned from referrals over this position's lifetime.
    pub lifetime_ref_earnings: u64,
}

/// The payout cap earned by `total_deposited` of principal: 365% of it,
/// rounded down.
pub open spec fn spec_max_payout(total_deposited: int) -> int {
    total_deposited * MAX_PAYOUT_MULT / 100
}

/// Whole days elapsed from `last` to `now`. Any remainder within a day is
/// discarded, and a clock reading before `last` counts as no elapsed time.
pub open spec fn spec_elapsed_days(last: i64, now: i64) -> int {
    if now >= last {
        (now - last) / (ONE_DAY as int)
    } else {
        0
    }
}

/// Linear yield accrued by position `g` from its last settlement up to
/// `now`: 1.5% of the principal per whole elapsed day, rounded down.
pub open spec fn spec_accrued(g: Garage, now: i64) -> int {
    g.total_deposited * spec_elapsed_days(g.last_action_at, now) * DAILY_RATE_BPS
        / (DENOMINATOR_BPS as int)
}

/// The yield claimable from position `g` at time `now`: zero once the
/// position is exhausted, otherwise the linear accrual capped at the
/// remaining payout.
pub open spec fn spec_available(g: Garage, now: i64) -> int {
    if g.total_claimed >= g.max_payout {
        0
    } else {
        let remaining = g.max_payout - g.total_claimed;
        if spec_accrued(g, now) < remaining {
            spec_accrued(g, now)
        } else {
            remaining
        }
    }
}

/// Position `g` after `add` of principal was credited at time `now`: the
/// principal grows, the cap is recomputed, and the yield clock restarts.
pub open spec fn spec_credit_principal(g: Garage, add: int, now: i64) -> Garage {
    Garage {
        total_deposited: (g.total_deposited + add) as u64,
        max_payout: spec_max_payout(g.total_deposited + add) as u64,
        last_action_at: now,
        ..g
    }
}

/// The payout cap grows with the principal.
pub proof fn lemma_max_payout_monotonic(td1: int, td2: int)
    requires
        0 <= td1 <= td2,
    ensures
        spec_max_payout(td1) <= spec_max_payout(td2),
{
    vstd::arithmetic::mul::lemma_mul_inequality(td1, td2, MAX_PAYOUT_MULT as int);
    vstd::arithmetic::div_mod::lemma_div_is_ordered(
        td1 * (MAX_PAYOUT_MULT as int),
        td2 * (MAX_PAYOUT_MULT as int),
        100,
    );
}

impl Garage {
    /// Well-formedness of a position: the payout cap tracks the principal
    /// exactly, and cumulative claims never pass the cap. Every operation
    /// of the engine preserves this.
    pub open spec fn wf(self) -> bool {
        &&& self.max_payout == spec_max_payout(self.total_deposited as int)
        &&& self.total_claimed <= self.max_payout
    }

    /// A fresh, empty position created at time `now`.
    pub fn new(authority: Pubkey, referrer: Pubkey, now: i64) -> (g: Garage)
        ensures
            g == (Garage {
                authority,
                referrer,
                total_deposited: 0,
                total_claimed: 0,
                max_payout: 0,
                last_action_at: now,
                created_at: now,
                direct_referrals: 0,
                lifetime_ref_earnings: 0,
            }),
            g.wf(),
    {
        Garage {
            authority,
            referrer,
            total_deposited: 0,
            total_claimed: 0,
            max_payout: 0,
            last_action_at: now,
            created_at: now,
            direct_referrals: 0,
            lifetime_ref_earnings: 0,
        }
    }

    /// Whether the position has reached its maximum payout (exhausted).
    pub fn is_exhausted(&self) -> (r: bool)
        ensures
            r == (self.total_claimed >= self.max_payout),
    {
        self.total_claimed >= self.max_payout
    }

    /// The rewards claimable at time `now`, per the linear accrual rule.
    ///
    /// The exact value of `spec_available` always fits in a `u64`, because
    /// the accrual is capped at the remaining payout.
    pub fn calculate_available(&self, now: i64) -> (r: u64)
        ensures
            r == spec_available(*self, now),
    {
        if self.total_claimed >= self.max_payout {
            return 0;
        }
        let days: u128 = if now >= self.last_action_at {
            (((now as i128) - (self.last_action_at as i128)) as u128) / 86_400
        } else {
            0
        };
        proof {
            assert(days == spec_elapsed_days(self.last_action_at, now));
            // The span of an i64 clock bounds the day count, which in turn
            // bounds the 128-bit accrual product.
            assert(days <= 0xffff_ffff_ffff_ffffu128 / 86_400);
            assert((self.total_deposited as u128) * days
                <= (0xffff_ffff_ffff_ffffu128) * (0xffff_ffff_ffff_ffffu128 / 86_400))
                by (nonlinear_arith)
                requires
                    days <= 0xffff_ffff_ffff_ffffu128 / 86_400,
                    self.total_deposited <= 0xffff_ffff_ffff_ffffu128,
            ;
        }
        let accrued: u128 = (self.total_deposited as u128) * days * 150 / 10_000;
        let remaining: u64 = self.max_payout - self.total_claimed;
        if accrued < remaining as u128 {
            accrued as u64
        } else {
            remaining
        }
    }

    /// Recompute `max_payout` after `total_deposited` changed.
    ///
    /// The cap must fit in the field; operations reject a change of
    /// principal whose cap would not, before mutating anything.
    pub fn update_max_payout(&mut self)
        requires
            spec_max_payout(old(self).total_deposited as int) <= u64::MAX,
        ensures
            final(self).max_payout == spec_max_payout(old(self).total_deposited as int),
            *final(self) == (Garage { max_payout: final(self).max_payout, ..*old(self) }),
    {
        let cap: u128 = (self.total_deposited as u128) * 365 / 100;
        self.max_payout = cap as u64;
    }
}

} // verus!
