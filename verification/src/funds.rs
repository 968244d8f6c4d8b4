//! The live per-market state of the external token ledger.

use vstd::prelude::*;

verus! {

/// What the token ledger holds for one market: the vault's balance of the
/// bet token and the outstanding supply of each position-token class.
///
/// These are the *live* quantities that the ledger would report through its
/// balance and supply reads. Redemption math works on them, never on the
/// market's cached pool counters.
#[derive(Clone, Copy, PartialEq, Eq, Structural, Debug)]
pub struct MarketFunds {
    /// Bet tokens held in escrow by the market's vault.
    pub vault_balance: u64,
    /// Outstanding supply of the YES position-token class.
    pub yes_supply: u64,
    /// Outstanding supply of the NO position-token class.
    pub no_supply: u64,
}

impl MarketFunds {
    /// The outstanding supply of the winning class for a resolved outcome.
    pub open spec fn winning_supply(self, outcome: bool) -> u64 {
        if outcome {
            self.yes_supply
        } else {
            self.no_supply
        }
    }

    /// The ledger state of a freshly created market: the vault and both
    /// position-token classes are newly allocated, so all three are zero.
    pub fn new() -> (r: MarketFunds)
        ensures
            r == (MarketFunds { vault_balance: 0, yes_supply: 0, no_supply: 0 }),
    {
        MarketFunds { vault_balance: 0, yes_supply: 0, no_supply: 0 }
    }
}

} // verus!
