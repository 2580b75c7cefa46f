//! The unclaimed-rewards source a miner account exposes to the engine.

use vstd::prelude::*;

verus! {

/// The two unclaimed FUEL balances of a user's miner record. Stash and
/// ClaimWallet consume both in full and hand back a zeroed source; how the
/// balances got there is the mining subsystem's business, not this engine's.
#[derive(Clone, Copy, Debug, PartialEq, Eq, Structural)]
pub struct MinerRewards {
    /// Raw unclaimed FUEL mining rewards.
    pub rewards_ore: u64,

    /// Refined unclaimed FUEL mining rewards.
    pub refined_ore: u64,
}

impl MinerRewards {
    /// A source with both balances cleared.
    pub fn zeroed() -> (r: MinerRewards)
        ensures
            r == (MinerRewards { rewards_ore: 0, refined_ore: 0 }),
    {
        MinerRewards { rewards_ore: 0, refined_ore: 0 }
    }
}

} // verus!
