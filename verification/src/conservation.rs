//! The conservation law of redemption: however a sequence of redemptions is
//! ordered or interleaved, the total paid out never exceeds the vault
//! balance the market held when it was settled.

use vstd::prelude::*;

use crate::funds::MarketFunds;
use crate::market::{Market, MarketStatus};
use crate::redemption::{funds_after_redeem, payout_amount, redeem_error, winning_mint_of};

verus! {

/// Whether one redemption of `amount` succeeds against a live vault balance
/// and winning supply: the amount is positive and covered by the supply,
/// both live reads are positive, and the payout is not dust.
pub open spec fn redemption_succeeds(vault_balance: u64, winning_supply: u64, amount: u64) -> bool {
    &&& amount > 0
    &&& winning_supply > 0
    &&& vault_balance > 0
    &&& amount <= winning_supply
    &&& payout_amount(amount, vault_balance, winning_supply) > 0
}

/// The total paid out by a sequence of redemption calls, each recomputed
/// against the vault balance and winning supply as the preceding calls left
/// them. A call that fails pays nothing and changes nothing, exactly as the
/// executable `redeem` leaves the ledger untouched on any error.
pub open spec fn total_paid(vault_balance: u64, winning_supply: u64, amounts: Seq<u64>) -> int
    decreases amounts.len(),
{
    if amounts.len() == 0 {
        0
    } else {
        let amount = amounts[0];
        if redemption_succeeds(vault_balance, winning_supply, amount) {
            let payout = payout_amount(amount, vault_balance, winning_supply);
            payout + total_paid(
                (vault_balance - payout) as u64,
                (winning_supply - amount) as u64,
                amounts.drop_first(),
            )
        } else {
            total_paid(vault_balance, winning_supply, amounts.drop_first())
        }
    }
}

/// Conservation: for every starting vault balance and winning supply, and
/// every sequence of redemption amounts, the sum of all payouts lies
/// between zero and the starting vault balance. Each successful call pays
/// at most the balance it found and reduces the balance by exactly what it
/// paid, so the running balance can never go negative, regardless of the
/// order of the calls.
pub proof fn lemma_redemption_conservation(
    vault_balance: u64,
    winning_supply: u64,
    amounts: Seq<u64>,
)
    ensures
        0 <= total_paid(vault_balance, winning_supply, amounts) <= vault_balance,
    decreases amounts.len(),
{
    if amounts.len() > 0 {
        let amount = amounts[0];
        if redemption_succeeds(vault_balance, winning_supply, amount) {
            crate::redemption::lemma_payout_bounds(amount, vault_balance, winning_supply);
            let payout = payout_amount(amount, vault_balance, winning_supply);
            lemma_redemption_conservation(
                (vault_balance - payout) as u64,
                (winning_supply - amount) as u64,
                amounts.drop_first(),
            );
        } else {
            lemma_redemption_conservation(vault_balance, winning_supply, amounts.drop_first());
        }
    }
}

/// The executable `redeem`, called with the market's own vault and winning
/// class and an amount the redeemer holds, succeeds exactly when
/// `redemption_succeeds` says so of the live reads, and on success moves
/// the ledger to the state `total_paid` steps through: the two describe the
/// same accounting.
pub proof fn lemma_redeem_is_conservation_step(
    m: Market,
    funds: MarketFunds,
    amount: u64,
    outcome: bool,
)
    requires
        m.status == MarketStatus::Settled(outcome),
        amount <= funds.winning_supply(outcome),
    ensures
        redeem_error(m, funds, m.vault, winning_mint_of(m), amount) is None
            <==> redemption_succeeds(funds.vault_balance, funds.winning_supply(outcome), amount),
        redemption_succeeds(funds.vault_balance, funds.winning_supply(outcome), amount)
            ==> funds_after_redeem(
            funds,
            outcome,
            amount,
            payout_amount(amount, funds.vault_balance, funds.winning_supply(outcome)),
        ).vault_balance == funds.vault_balance - payout_amount(
            amount,
            funds.vault_balance,
            funds.winning_supply(outcome),
        ),
{
    if funds.winning_supply(outcome) > 0 {
        crate::redemption::lemma_payout_bounds(
            amount,
            funds.vault_balance,
            funds.winning_supply(outcome),
        );
    }
}

} // verus!
