//! The settlement engine: the single irreversible `Open -> Settled`
//! transition.

use vstd::prelude::*;

use crate::errors::MarketError;
use crate::market::{AccountId, Market, MarketStatus};

verus! {

/// Which error, if any, `settle_market` reports, in the order the checks
/// run: authorization, then lifecycle state, then timing.
pub open spec fn settle_market_error(m: Market, caller: AccountId, now: i64) -> Option<
    MarketError,
> {
    if caller != m.creator {
        Some(MarketError::Unauthorized)
    } else if !(m.status is Open) {
        Some(MarketError::AlreadySettled)
    } else if now < m.expiry_timestamp {
        Some(MarketError::MarketNotExpired)
    } else {
        None
    }
}

/// The market after a successful settlement: only the lifecycle state
/// changes, recording the outcome.
pub open spec fn settled_market(m: Market, outcome: bool) -> Market {
    Market { status: MarketStatus::Settled(outcome), ..m }
}

/// Records the resolved outcome on an open, expired market when called by
/// its creator. Succeeds exactly when the caller is the creator, the market
/// is still `Open`, and the expiry instant has been reached; any failure
/// leaves the market unchanged.
pub fn settle_market(market: &mut Market, caller: AccountId, outcome: bool, now: i64) -> (r:
    Result<(), MarketError>)
    ensures
        match settle_market_error(*old(market), caller, now) {
            Some(e) => r == Err::<(), MarketError>(e) && *final(market) == *old(market),
            None => r == Ok::<(), MarketError>(()) && *final(market) == settled_market(
                *old(market),
                outcome,
            ),
        },
{
    if caller != market.creator {
        return Err(MarketError::Unauthorized);
    }
    match market.status {
        MarketStatus::Settled(_) => {
            return Err(MarketError::AlreadySettled);
        },
        MarketStatus::Open => {},
    }
    if now < market.expiry_timestamp {
        return Err(MarketError::MarketNotExpired);
    }
    market.status = MarketStatus::Settled(outcome);
    Ok(())
}

/// Settlement is single-fire: once a settlement has succeeded, a second
/// attempt by the creator fails with `AlreadySettled`, whenever it is
/// tried and whatever outcome it proposes (the checks never read the
/// proposed outcome), and no operation ever moves a market out of
/// `Settled`.
pub proof fn lemma_settlement_is_single_fire(
    m: Market,
    caller: AccountId,
    outcome: bool,
    now: i64,
    now2: i64,
)
    requires
        settle_market_error(m, caller, now) is None,
    ensures
        settle_market_error(settled_market(m, outcome), caller, now2) == Some(
            MarketError::AlreadySettled,
        ),
{
}

/// Settlement is the only transition of the lifecycle state: a bet leaves
/// the state exactly as it found it (and redemption never mutates the
/// market record at all), while a settlement attempt against a settled
/// market always fails, whoever calls and whenever.
pub proof fn lemma_only_settlement_changes_state(
    m: Market,
    amount: u64,
    side: bool,
    caller: AccountId,
    now: i64,
)
    ensures
        crate::betting::market_after_bet(m, amount, side).status == m.status,
        m.status is Settled ==> settle_market_error(m, caller, now) is Some,
{
}

} // verus!
