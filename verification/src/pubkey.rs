//! Account identities.

use vstd::prelude::*;

verus! {

/// A 32-byte account identity, held as four 64-bit words.
///
/// The engine never interprets an identity: it only stores identities and
/// compares them for equality (owner checks and the self-referral rule).
#[derive(Clone, Copy, Debug, PartialEq, Eq, Hash, Structural)]
pub struct Pubkey {
    pub w0: u64,
    pub w1: u64,
    pub w2: u64,
    pub w3: u64,
}

impl Pubkey {
    /// An identity from four 64-bit words.
    pub fn new(w0: u64, w1: u64, w2: u64, w3: u64) -> (r: Pubkey)
        ensures
            r == (Pubkey { w0, w1, w2, w3 }),
    {
        Pubkey { w0, w1, w2, w3 }
    }
}

} // verus!
