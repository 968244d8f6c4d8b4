//! The `Market` record, its lifecycle state, and the deterministic
//! addressing of its sub-resources.

use vstd::prelude::*;

verus! {

/// Maximum length of a market title, in code points.
pub const MAX_TITLE_LEN: usize = 128;

/// Maximum length of a market description, in code points.
pub const MAX_DESCRIPTION_LEN: usize = 512;

/// Identity of a principal (a creator, a bettor) or of a pre-existing asset
/// (the bet token's class) on the external token ledger.
#[derive(Clone, Copy, PartialEq, Eq, Structural, Debug)]
pub struct AccountId {
    pub raw: u64,
}

/// The tuple that deterministically identifies at most one market: a second
/// creation attempt with the same key must fail rather than overwrite.
#[derive(Clone, Copy, PartialEq, Eq, Structural, Debug)]
pub struct MarketKey {
    pub creator: AccountId,
    pub bet_token_mint: AccountId,
    pub expiry_timestamp: i64,
}

/// Which of a market's sub-resources a derived identifier denotes.
#[derive(Clone, Copy, PartialEq, Eq, Structural, Debug)]
pub enum ResourceKind {
    /// The escrow account holding all deposited stake.
    Vault,
    /// The YES position-token class.
    YesMint,
    /// The NO position-token class.
    NoMint,
}

/// Identifier of a market-owned resource, derived purely from the market's
/// key and the resource kind: identical inputs always resolve to the same
/// identifier, and distinct inputs to distinct identifiers, by construction.
#[derive(Clone, Copy, PartialEq, Eq, Structural, Debug)]
pub struct ResourceId {
    pub market: MarketKey,
    pub kind: ResourceKind,
}

/// The deterministic addressing function: derives the identifier of one of a
/// market's sub-resources from the market's identifying key alone.
pub fn derive_resource(market: MarketKey, kind: ResourceKind) -> (r: ResourceId)
    ensures
        r == (ResourceId { market, kind }),
{
    ResourceId { market, kind }
}

/// The lifecycle state of a market. The outcome exists if and only if the
/// market is settled: the tagged union makes `Open` with an outcome, or
/// `Settled` without one, unrepresentable.
#[derive(Clone, Copy, PartialEq, Eq, Structural, Debug)]
pub enum MarketStatus {
    Open,
    Settled(bool),
}

/// The record governing one prediction event.
///
/// `yes_pool` and `no_pool` are advisory cumulative deposit totals per side,
/// kept for analytics. They are never authoritative for redemption payouts:
/// payout math reads the live vault balance and winning supply instead (see
/// `redemption`), since the counters diverge from the real redeemable funds
/// once partial redemptions have occurred.
#[derive(Clone, PartialEq, Eq, Debug)]
pub struct Market {
    /// The account that may settle this market.
    pub creator: AccountId,
    /// Immutable after creation; at most `MAX_TITLE_LEN` code points.
    pub title: String,
    /// Immutable after creation; at most `MAX_DESCRIPTION_LEN` code points.
    pub description: String,
    /// The asset accepted as stake.
    pub bet_token_mint: AccountId,
    /// The escrow account holding all deposited stake for this market.
    pub vault: ResourceId,
    /// The YES position-token class minted against this market.
    pub yes_mint: ResourceId,
    /// The NO position-token class minted against this market.
    pub no_mint: ResourceId,
    /// Advisory cumulative amount deposited on the YES side.
    pub yes_pool: u64,
    /// Advisory cumulative amount deposited on the NO side.
    pub no_pool: u64,
    /// The instant after which betting closes and settlement becomes possible.
    pub expiry_timestamp: i64,
    /// `Open`, or `Settled` with the resolved outcome.
    pub status: MarketStatus,
}

impl Market {
    /// The identifying tuple of this market.
    pub open spec fn key(self) -> MarketKey {
        MarketKey {
            creator: self.creator,
            bet_token_mint: self.bet_token_mint,
            expiry_timestamp: self.expiry_timestamp,
        }
    }

    /// Well-formedness: the length bounds hold and the three sub-resource
    /// identifiers are the ones derived from this market's own key.
    /// Established by creation and preserved by every operation.
    pub open spec fn wf(self) -> bool {
        &&& self.title@.len() <= MAX_TITLE_LEN
        &&& self.description@.len() <= MAX_DESCRIPTION_LEN
        &&& self.vault == (ResourceId { market: self.key(), kind: ResourceKind::Vault })
        &&& self.yes_mint == (ResourceId { market: self.key(), kind: ResourceKind::YesMint })
        &&& self.no_mint == (ResourceId { market: self.key(), kind: ResourceKind::NoMint })
    }
}

} // verus!
