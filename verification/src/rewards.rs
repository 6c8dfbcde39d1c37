use vstd::prelude::*;
use crate::pubkey::Pubkey;

verus! {

/// An order to issue reward currency. A request that is accepted hands it
/// back; whoever runs the request carries it out, signing as the platform.
#[derive(Clone, Copy, Debug, PartialEq, Eq)]
pub struct RewardMint {
    /// The currency: the current season's.
    pub mint: Pubkey,
    /// Who receives it.
    pub recipient: Pubkey,
    /// How much.
    pub amount: u64,
}

} // verus!
