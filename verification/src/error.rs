//! Errors of the Garage engine.

use vstd::prelude::*;

verus! {

/// Every failure an operation can return. Each error aborts the whole
/// operation: nothing is partially applied.
#[derive(Clone, Copy, Debug, PartialEq, Eq, Structural)]
pub enum OreError {
    /// Amount too small.
    AmountTooSmall,
    /// Caller is not the record's owner.
    NotAuthorized,
    /// Invalid executor.
    InvalidExecutor,
    /// Deposit below the minimum (10 FUEL).
    DepositBelowMinimum,
    /// Garage is exhausted (max payout reached).
    GarageExhausted,
    /// No rewards available to claim.
    NoRewardsAvailable,
    /// Invalid referrer (cannot self-refer).
    InvalidReferrer,
    /// Referrer has no Garage account.
    ReferrerNoGarage,
    /// Insufficient pool balance, for pool-draw paths that disallow the
    /// mint fallback.
    InsufficientPoolBalance,
    /// Garage account required (fuel up first).
    GarageRequired,
    /// A checked arithmetic step would overflow a cumulative field.
    ArithmeticOverflow,
}

} // verus!
