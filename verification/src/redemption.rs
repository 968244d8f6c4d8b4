//! The redemption calculator: computes and executes a share-proportional
//! payout against a settled market.
//!
//! Payout math deliberately reads the *live* vault balance and winning
//! supply, never the cached pool counters: once partial redemptions have
//! occurred the counters diverge from the real redeemable funds, and a
//! payout computed against a static total recorded at settlement time could
//! drain the vault beyond its actual balance.

use vstd::prelude::*;

use crate::errors::MarketError;
use crate::funds::MarketFunds;
use crate::market::{Market, MarketStatus, ResourceId};

verus! {

/// The payout owed for redeeming `amount` winning tokens against a live
/// vault balance and winning supply: the proportional share
/// `floor(amount * vault_balance / winning_supply)`, defensively clamped to
/// the vault balance so no single redemption can pay out more than the
/// vault holds.
pub open spec fn payout_amount(amount: u64, vault_balance: u64, winning_supply: u64) -> int
    recommends
        winning_supply > 0,
{
    let ideal = (amount as int * vault_balance as int) / (winning_supply as int);
    if ideal <= vault_balance as int {
        ideal
    } else {
        vault_balance as int
    }
}

/// The payout lies between zero and the vault balance, for every amount.
pub proof fn lemma_payout_bounds(amount: u64, vault_balance: u64, winning_supply: u64)
    requires
        winning_supply > 0,
    ensures
        0 <= payout_amount(amount, vault_balance, winning_supply) <= vault_balance,
{
    vstd::arithmetic::mul::lemma_mul_nonnegative(amount as int, vault_balance as int);
    vstd::arithmetic::div_mod::lemma_div_pos_is_pos(
        amount as int * vault_balance as int,
        winning_supply as int,
    );
}

/// Computes the payout with a double-width intermediate, so the
/// multiplication cannot overflow before the division even when both the
/// amount and the vault balance are near the maximum representable value.
pub fn compute_payout(amount: u64, vault_balance: u64, winning_supply: u64) -> (r: u64)
    requires
        winning_supply > 0,
    ensures
        r == payout_amount(amount, vault_balance, winning_supply),
{
    proof {
        vstd::arithmetic::mul::lemma_mul_upper_bound(
            amount as int,
            u64::MAX as int,
            vault_balance as int,
            u64::MAX as int,
        );
    }
    let wide: u128 = (amount as u128) * (vault_balance as u128);
    let quotient: u128 = wide / (winning_supply as u128);
    if quotient >= vault_balance as u128 {
        vault_balance
    } else {
        quotient as u64
    }
}

/// The winning position-token class of a settled market: the YES class if
/// the outcome was true, the NO class otherwise.
pub open spec fn winning_mint_of(m: Market) -> ResourceId
    recommends
        m.status is Settled,
{
    if m.status->Settled_0 {
        m.yes_mint
    } else {
        m.no_mint
    }
}

/// Resolves the winning class of a settled market, or reports `NotSettled`
/// while the outcome does not exist yet.
pub fn get_winning_mint(market: &Market) -> (r: Result<ResourceId, MarketError>)
    ensures
        market.status is Settled ==> r == Ok::<ResourceId, MarketError>(winning_mint_of(*market)),
        market.status is Open ==> r == Err::<ResourceId, MarketError>(MarketError::NotSettled),
{
    match market.status {
        MarketStatus::Settled(outcome) => Ok(
            if outcome {
                market.yes_mint
            } else {
                market.no_mint
            },
        ),
        MarketStatus::Open => Err(MarketError::NotSettled),
    }
}

/// Which error, if any, `redeem` reports, in the order the checks run:
/// lifecycle state, then the named vault and class against the market's
/// recorded ones, then the amount, then the live resource reads, and last
/// the dust check on the computed payout.
pub open spec fn redeem_error(
    m: Market,
    funds: MarketFunds,
    vault: ResourceId,
    winning_mint: ResourceId,
    amount: u64,
) -> Option<MarketError> {
    if !(m.status is Settled) {
        Some(MarketError::NotSettled)
    } else if vault != m.vault {
        Some(MarketError::InvalidVault)
    } else if winning_mint != winning_mint_of(m) {
        Some(MarketError::WrongMint)
    } else if amount == 0 {
        Some(MarketError::InvalidAmount)
    } else if funds.winning_supply(m.status->Settled_0) == 0 {
        Some(MarketError::NoWinningBets)
    } else if funds.vault_balance == 0 {
        Some(MarketError::VaultEmpty)
    } else if payout_amount(amount, funds.vault_balance, funds.winning_supply(m.status->Settled_0))
        == 0 {
        Some(MarketError::PayoutTooSmall)
    } else {
        None
    }
}

/// The ledger state after a successful redemption: the vault pays out
/// `payout` and the winning supply shrinks by the `amount` burned; the
/// losing supply is untouched.
pub open spec fn funds_after_redeem(
    f: MarketFunds,
    outcome: bool,
    amount: u64,
    payout: int,
) -> MarketFunds {
    MarketFunds {
        vault_balance: (f.vault_balance - payout) as u64,
        yes_supply: if outcome {
            (f.yes_supply - amount) as u64
        } else {
            f.yes_supply
        },
        no_supply: if outcome {
            f.no_supply
        } else {
            (f.no_supply - amount) as u64
        },
    }
}

/// Burns `amount` winning tokens and pays their proportional share of the
/// vault, both recomputed from the live balance and supply at call time.
///
/// A caller can only redeem tokens it holds, and no holder can hold more
/// than the outstanding supply; the token ledger's burn enforces this, and
/// it is required here so the burn never underflows the supply.
///
/// The market record itself is never mutated by redemption. If the payout
/// computes to zero (dust), the call fails and leaves the tokens un-burned
/// and the vault untouched; any failure leaves the ledger state unchanged.
pub fn redeem(
    market: &Market,
    funds: &mut MarketFunds,
    vault: ResourceId,
    winning_mint: ResourceId,
    amount: u64,
) -> (r: Result<u64, MarketError>)
    requires
        market.status matches MarketStatus::Settled(outcome) ==> amount <= old(
            funds,
        ).winning_supply(outcome),
    ensures
        match redeem_error(*market, *old(funds), vault, winning_mint, amount) {
            Some(e) => r == Err::<u64, MarketError>(e) && *final(funds) == *old(funds),
            None => ({
                let outcome = market.status->Settled_0;
                let payout = payout_amount(
                    amount,
                    old(funds).vault_balance,
                    old(funds).winning_supply(outcome),
                );
                &&& r == Ok::<u64, MarketError>(payout as u64)
                &&& 0 < payout <= old(funds).vault_balance
                &&& *final(funds) == funds_after_redeem(*old(funds), outcome, amount, payout)
            }),
        },
{
    let outcome = match market.status {
        MarketStatus::Settled(o) => o,
        MarketStatus::Open => {
            return Err(MarketError::NotSettled);
        },
    };
    if vault != market.vault {
        return Err(MarketError::InvalidVault);
    }
    let expected_mint = match get_winning_mint(market) {
        Ok(m) => m,
        Err(e) => {
            return Err(e);
        },
    };
    if winning_mint != expected_mint {
        return Err(MarketError::WrongMint);
    }
    if amount == 0 {
        return Err(MarketError::InvalidAmount);
    }
    let winning_supply = if outcome {
        funds.yes_supply
    } else {
        funds.no_supply
    };
    if winning_supply == 0 {
        return Err(MarketError::NoWinningBets);
    }
    if funds.vault_balance == 0 {
        return Err(MarketError::VaultEmpty);
    }
    let payout = compute_payout(amount, funds.vault_balance, winning_supply);
    if payout == 0 {
        return Err(MarketError::PayoutTooSmall);
    }
    proof {
        lemma_payout_bounds(amount, funds.vault_balance, winning_supply);
    }
    // Burn the winning tokens, then pay out of the vault; the payout is
    // clamped to the balance, so the vault can never go negative.
    funds.vault_balance = funds.vault_balance - payout;
    if outcome {
        funds.yes_supply = funds.yes_supply - amount;
    } else {
        funds.no_supply = funds.no_supply - amount;
    }
    Ok(payout)
}

} // verus!
