//! The betting ledger: validates and records a deposit into one of the two
//! side pools while the market is open and before expiry.

use vstd::prelude::*;

use crate::errors::MarketError;
use crate::funds::MarketFunds;
use crate::market::{AccountId, Market, MarketStatus, ResourceId};

verus! {

/// Which error, if any, `place_bet` reports, in the order the checks run:
/// lifecycle state, then the named token, class and vault identifiers
/// against the market's recorded ones, then timing, then the amount, and
/// last the three checked additions (vault balance, minted supply, pool
/// counter), any of which overflowing aborts the whole operation.
pub open spec fn place_bet_error(
    m: Market,
    funds: MarketFunds,
    bet_token_mint: AccountId,
    yes_mint: ResourceId,
    no_mint: ResourceId,
    vault: ResourceId,
    amount: u64,
    side: bool,
    now: i64,
) -> Option<MarketError> {
    if !(m.status is Open) {
        Some(MarketError::MarketNotOpen)
    } else if bet_token_mint != m.bet_token_mint {
        Some(MarketError::InvalidBetToken)
    } else if yes_mint != m.yes_mint || no_mint != m.no_mint {
        Some(MarketError::InvalidMint)
    } else if vault != m.vault {
        Some(MarketError::InvalidVault)
    } else if now >= m.expiry_timestamp {
        Some(MarketError::MarketExpired)
    } else if amount == 0 {
        Some(MarketError::InvalidBetAmount)
    } else if funds.vault_balance + amount > u64::MAX || (if side {
        funds.yes_supply + amount > u64::MAX || m.yes_pool + amount > u64::MAX
    } else {
        funds.no_supply + amount > u64::MAX || m.no_pool + amount > u64::MAX
    }) {
        Some(MarketError::ArithmeticOverflow)
    } else {
        None
    }
}

/// The market after a successful bet: only the chosen side's advisory pool
/// counter grows, by exactly the amount deposited.
pub open spec fn market_after_bet(m: Market, amount: u64, side: bool) -> Market {
    if side {
        Market { yes_pool: (m.yes_pool + amount) as u64, ..m }
    } else {
        Market { no_pool: (m.no_pool + amount) as u64, ..m }
    }
}

/// The ledger state after a successful bet: the vault gains the deposit and
/// the chosen side's position-token supply grows by the same amount (the
/// tokens minted to the bettor); the other side's supply is untouched.
pub open spec fn funds_after_bet(f: MarketFunds, amount: u64, side: bool) -> MarketFunds {
    MarketFunds {
        vault_balance: (f.vault_balance + amount) as u64,
        yes_supply: if side {
            (f.yes_supply + amount) as u64
        } else {
            f.yes_supply
        },
        no_supply: if side {
            f.no_supply
        } else {
            (f.no_supply + amount) as u64
        },
    }
}

/// Moves `amount` of the bet token into the vault, mints `amount` of the
/// chosen side's position tokens, and increments that side's pool counter,
/// as one all-or-nothing unit: on any failure nothing moves, nothing is
/// minted, and no counter changes.
pub fn place_bet(
    market: &mut Market,
    funds: &mut MarketFunds,
    bet_token_mint: AccountId,
    yes_mint: ResourceId,
    no_mint: ResourceId,
    vault: ResourceId,
    amount: u64,
    side: bool,
    now: i64,
) -> (r: Result<(), MarketError>)
    ensures
        match place_bet_error(
            *old(market),
            *old(funds),
            bet_token_mint,
            yes_mint,
            no_mint,
            vault,
            amount,
            side,
            now,
        ) {
            Some(e) => {
                &&& r == Err::<(), MarketError>(e)
                &&& *final(market) == *old(market)
                &&& *final(funds) == *old(funds)
            },
            None => {
                &&& r == Ok::<(), MarketError>(())
                &&& *final(market) == market_after_bet(*old(market), amount, side)
                &&& *final(funds) == funds_after_bet(*old(funds), amount, side)
            },
        },
{
    match market.status {
        MarketStatus::Open => {},
        MarketStatus::Settled(_) => {
            return Err(MarketError::MarketNotOpen);
        },
    }
    if bet_token_mint != market.bet_token_mint {
        return Err(MarketError::InvalidBetToken);
    }
    if yes_mint != market.yes_mint || no_mint != market.no_mint {
        return Err(MarketError::InvalidMint);
    }
    if vault != market.vault {
        return Err(MarketError::InvalidVault);
    }
    if now >= market.expiry_timestamp {
        return Err(MarketError::MarketExpired);
    }
    if amount == 0 {
        return Err(MarketError::InvalidBetAmount);
    }
    // All three additions are checked before any state changes, so that an
    // overflow in any of them leaves the deposit, the mint and the counter
    // all unapplied.
    let new_vault_balance = match funds.vault_balance.checked_add(amount) {
        Some(v) => v,
        None => {
            return Err(MarketError::ArithmeticOverflow);
        },
    };
    let new_supply = match (if side {
        funds.yes_supply
    } else {
        funds.no_supply
    }).checked_add(amount) {
        Some(s) => s,
        None => {
            return Err(MarketError::ArithmeticOverflow);
        },
    };
    let new_pool = match (if side {
        market.yes_pool
    } else {
        market.no_pool
    }).checked_add(amount) {
        Some(p) => p,
        None => {
            return Err(MarketError::ArithmeticOverflow);
        },
    };
    funds.vault_balance = new_vault_balance;
    if side {
        funds.yes_supply = new_supply;
        market.yes_pool = new_pool;
    } else {
        funds.no_supply = new_supply;
        market.no_pool = new_pool;
    }
    Ok(())
}

/// The pool counters are monotone: a bet that does not overflow them never
/// decreases either counter, so the counters only grow while the market is
/// open, and nothing else ever writes them.
pub proof fn lemma_pools_monotone(m: Market, amount: u64, side: bool)
    requires
        side ==> m.yes_pool + amount <= u64::MAX,
        !side ==> m.no_pool + amount <= u64::MAX,
    ensures
        market_after_bet(m, amount, side).yes_pool >= m.yes_pool,
        market_after_bet(m, amount, side).no_pool >= m.no_pool,
{
}

} // verus!
