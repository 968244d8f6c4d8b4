//! The market registry: validates and creates a new `Market`, and rejects a
//! second creation with the same identifying tuple.

use vstd::prelude::*;

use crate::errors::MarketError;
use crate::market::{
    derive_resource, AccountId, Market, MarketKey, MarketStatus, ResourceId, ResourceKind,
    MAX_DESCRIPTION_LEN, MAX_TITLE_LEN,
};

verus! {

/// Tracks which identifying tuples already name a market, so that creation
/// is idempotent in the failing sense: re-creating the same tuple errs
/// rather than overwriting or duplicating.
pub struct MarketRegistry {
    pub created: Vec<MarketKey>,
}

/// Which error, if any, `create_market` reports, in the order the checks
/// run: the duplicate check guards allocation before any validation, then
/// expiry, title and description are validated.
pub open spec fn create_market_error(
    reg: MarketRegistry,
    creator: AccountId,
    title: Seq<char>,
    description: Seq<char>,
    bet_token_mint: AccountId,
    expiry_timestamp: i64,
    now: i64,
) -> Option<MarketError> {
    if reg.spec_contains(MarketKey { creator, bet_token_mint, expiry_timestamp }) {
        Some(MarketError::MarketAlreadyExists)
    } else if expiry_timestamp <= now {
        Some(MarketError::ExpiryInPast)
    } else if title.len() > MAX_TITLE_LEN {
        Some(MarketError::TitleTooLong)
    } else if description.len() > MAX_DESCRIPTION_LEN {
        Some(MarketError::DescriptionTooLong)
    } else {
        None
    }
}

/// The record a successful creation initializes: state `Open`, both pool
/// counters zero, no outcome, and the vault and position-token classes
/// derived from the market's own identifying key.
pub open spec fn fresh_market(
    creator: AccountId,
    title: String,
    description: String,
    bet_token_mint: AccountId,
    expiry_timestamp: i64,
) -> Market {
    let key = MarketKey { creator, bet_token_mint, expiry_timestamp };
    Market {
        creator,
        title,
        description,
        bet_token_mint,
        vault: ResourceId { market: key, kind: ResourceKind::Vault },
        yes_mint: ResourceId { market: key, kind: ResourceKind::YesMint },
        no_mint: ResourceId { market: key, kind: ResourceKind::NoMint },
        yes_pool: 0,
        no_pool: 0,
        expiry_timestamp,
        status: MarketStatus::Open,
    }
}

impl MarketRegistry {
    /// Whether some market with this identifying tuple has been created.
    pub open spec fn spec_contains(self, key: MarketKey) -> bool {
        self.created@.contains(key)
    }

    /// A registry with no markets.
    pub fn new() -> (r: MarketRegistry)
        ensures
            r.created@ == Seq::<MarketKey>::empty(),
    {
        MarketRegistry { created: Vec::new() }
    }

    /// Whether some market with this identifying tuple has been created.
    pub fn contains_key(&self, key: MarketKey) -> (r: bool)
        ensures
            r == self.spec_contains(key),
    {
        let mut i: usize = 0;
        while i < self.created.len()
            invariant
                i <= self.created.len(),
                forall|j: int| 0 <= j < i ==> self.created@[j] != key,
            decreases self.created.len() - i,
        {
            if self.created[i] == key {
                return true;
            }
            i += 1;
        }
        false
    }

    /// Validates the inputs and creates a new market in state `Open` with
    /// zero pools and no outcome, allocating its vault and position-token
    /// classes deterministically from `(creator, bet_token_mint,
    /// expiry_timestamp)`. Succeeds exactly when that tuple is fresh, the
    /// expiry lies strictly after `now`, and the title and description meet
    /// their length bounds; any failure leaves the registry unchanged. No
    /// payment changes hands here.
    pub fn create_market(
        &mut self,
        creator: AccountId,
        title: String,
        description: String,
        bet_token_mint: AccountId,
        expiry_timestamp: i64,
        now: i64,
    ) -> (r: Result<Market, MarketError>)
        ensures
            match create_market_error(
                *old(self),
                creator,
                title@,
                description@,
                bet_token_mint,
                expiry_timestamp,
                now,
            ) {
                Some(e) => r == Err::<Market, MarketError>(e) && *final(self) == *old(self),
                None => ({
                    let m = fresh_market(creator, title, description, bet_token_mint,
                        expiry_timestamp);
                    &&& r == Ok::<Market, MarketError>(m)
                    &&& m.wf()
                    &&& m.status is Open
                    &&& m.yes_pool == 0
                    &&& m.no_pool == 0
                    &&& final(self).created@ == old(self).created@.push(m.key())
                }),
            },
    {
        let key = MarketKey { creator, bet_token_mint, expiry_timestamp };
        if self.contains_key(key) {
            return Err(MarketError::MarketAlreadyExists);
        }
        if expiry_timestamp <= now {
            return Err(MarketError::ExpiryInPast);
        }
        if title.as_str().unicode_len() > MAX_TITLE_LEN {
            return Err(MarketError::TitleTooLong);
        }
        if description.as_str().unicode_len() > MAX_DESCRIPTION_LEN {
            return Err(MarketError::DescriptionTooLong);
        }
        self.created.push(key);
        Ok(Market {
            creator,
            title,
            description,
            bet_token_mint,
            vault: derive_resource(key, ResourceKind::Vault),
            yes_mint: derive_resource(key, ResourceKind::YesMint),
            no_mint: derive_resource(key, ResourceKind::NoMint),
            yes_pool: 0,
            no_pool: 0,
            expiry_timestamp,
            status: MarketStatus::Open,
        })
    }
}

/// Creation is not re-playable: after a creation with some tuple succeeds,
/// every later attempt with the same tuple fails with `MarketAlreadyExists`,
/// whatever title, description or clock reading it carries.
pub proof fn lemma_recreation_fails(
    reg: MarketRegistry,
    reg_after: MarketRegistry,
    creator: AccountId,
    title: Seq<char>,
    description: Seq<char>,
    bet_token_mint: AccountId,
    expiry_timestamp: i64,
    now: i64,
    title2: Seq<char>,
    description2: Seq<char>,
    now2: i64,
)
    requires
        create_market_error(reg, creator, title, description, bet_token_mint, expiry_timestamp, now)
            is None,
        reg_after.created@ == reg.created@.push(
            MarketKey { creator, bet_token_mint, expiry_timestamp },
        ),
    ensures
        create_market_error(
            reg_after,
            creator,
            title2,
            description2,
            bet_token_mint,
            expiry_timestamp,
            now2,
        ) == Some(MarketError::MarketAlreadyExists),
{
    let key = MarketKey { creator, bet_token_mint, expiry_timestamp };
    assert(reg_after.created@[reg.created@.len() as int] == key);
    assert(reg_after.spec_contains(key));
}

} // verus!
