//! The Garage slice of the shared treasury ledger.

use vstd::prelude::*;

verus! {

/// The two treasury fields the Garage engine reads and writes. The on-chain
/// treasury is a larger singleton that also carries fields owned by the
/// lottery subsystem; those never flow through this engine.
#[derive(Clone, Copy, Debug, PartialEq, Eq, Structural)]
pub struct Treasury {
    /// FUEL pool funding Garage withdrawals, fed by Fuel Up, Boost and
    /// Collect fees and drawn down before any FUEL is minted as backstop.
    pub garage_pool: u64,

    /// Total FUEL counted as deposited across all Garages; the denominator
    /// of the whale tax. Grows whenever any position's principal grows.
    pub total_garage_tvl: u64,
}

} // verus!
