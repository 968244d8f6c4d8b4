use prediction_market::betting::place_bet;
use prediction_market::errors::MarketError;
use prediction_market::funds::MarketFunds;
use prediction_market::market::{AccountId, Market, MarketStatus};
use prediction_market::registry::MarketRegistry;
use prediction_market::settlement::settle_market;

const EXPIRY: i64 = 1_000;

fn creator() -> AccountId {
    AccountId { raw: 11 }
}

fn bet_token() -> AccountId {
    AccountId { raw: 77 }
}

fn open_market() -> Market {
    let mut registry = MarketRegistry::new();
    registry
        .create_market(
            creator(),
            String::from("t"),
            String::from("d"),
            bet_token(),
            EXPIRY,
            0,
        )
        .unwrap()
}

fn bet(
    market: &mut Market,
    funds: &mut MarketFunds,
    amount: u64,
    side: bool,
    now: i64,
) -> Result<(), MarketError> {
    let (token, yes, no, vault) = (
        market.bet_token_mint,
        market.yes_mint,
        market.no_mint,
        market.vault,
    );
    place_bet(market, funds, token, yes, no, vault, amount, side, now)
}

#[test]
fn bet_moves_amount_into_vault_supply_and_pool() {
    let mut market = open_market();
    let mut funds = MarketFunds::new();
    assert_eq!(bet(&mut market, &mut funds, 50, true, 10), Ok(()));
    assert_eq!(funds.vault_balance, 50);
    assert_eq!(funds.yes_supply, 50);
    assert_eq!(funds.no_supply, 0);
    assert_eq!(market.yes_pool, 50);
    assert_eq!(market.no_pool, 0);
    assert_eq!(bet(&mut market, &mut funds, 30, false, 20), Ok(()));
    assert_eq!(funds.vault_balance, 80);
    assert_eq!(funds.yes_supply, 50);
    assert_eq!(funds.no_supply, 30);
    assert_eq!(market.yes_pool, 50);
    assert_eq!(market.no_pool, 30);
    assert_eq!(market.status, MarketStatus::Open);
}

#[test]
fn bet_on_settled_market_fails_and_changes_nothing() {
    let mut market = open_market();
    let mut funds = MarketFunds::new();
    assert_eq!(bet(&mut market, &mut funds, 5, true, 10), Ok(()));
    settle_market(&mut market, creator(), true, EXPIRY).unwrap();
    let before_market = market.clone();
    let before_funds = funds;
    let r = bet(&mut market, &mut funds, 5, true, 10);
    assert_eq!(r, Err(MarketError::MarketNotOpen));
    assert_eq!(market, before_market);
    assert_eq!(funds, before_funds);
}

#[test]
fn bet_at_or_after_expiry_fails_and_changes_nothing() {
    let mut market = open_market();
    let mut funds = MarketFunds::new();
    let r = bet(&mut market, &mut funds, 5, true, EXPIRY);
    assert_eq!(r, Err(MarketError::MarketExpired));
    let r = bet(&mut market, &mut funds, 5, false, EXPIRY + 4);
    assert_eq!(r, Err(MarketError::MarketExpired));
    assert_eq!(funds, MarketFunds::new());
    assert_eq!(market.yes_pool, 0);
    assert_eq!(market.no_pool, 0);
}

#[test]
fn zero_amount_bet_fails() {
    let mut market = open_market();
    let mut funds = MarketFunds::new();
    let r = bet(&mut market, &mut funds, 0, true, 10);
    assert_eq!(r, Err(MarketError::InvalidBetAmount));
    assert_eq!(funds, MarketFunds::new());
}

#[test]
fn mismatched_identifiers_on_bet_are_rejected() {
    let mut market = open_market();
    let mut funds = MarketFunds::new();
    let (token, yes, no, vault) = (
        market.bet_token_mint,
        market.yes_mint,
        market.no_mint,
        market.vault,
    );
    let wrong_token = AccountId { raw: 9_999 };
    let r = place_bet(
        &mut market,
        &mut funds,
        wrong_token,
        yes,
        no,
        vault,
        5,
        true,
        10,
    );
    assert_eq!(r, Err(MarketError::InvalidBetToken));
    let r = place_bet(&mut market, &mut funds, token, no, no, vault, 5, true, 10);
    assert_eq!(r, Err(MarketError::InvalidMint));
    let r = place_bet(&mut market, &mut funds, token, yes, yes, vault, 5, true, 10);
    assert_eq!(r, Err(MarketError::InvalidMint));
    let r = place_bet(&mut market, &mut funds, token, yes, no, yes, 5, true, 10);
    assert_eq!(r, Err(MarketError::InvalidVault));
    assert_eq!(funds, MarketFunds::new());
    assert_eq!(market.yes_pool, 0);
}

#[test]
fn pool_overflow_aborts_with_no_partial_effect() {
    let mut market = open_market();
    market.yes_pool = u64::MAX;
    let mut funds = MarketFunds::new();
    let before_market = market.clone();
    let r = bet(&mut market, &mut funds, 1, true, 10);
    assert_eq!(r, Err(MarketError::ArithmeticOverflow));
    // The deposit and the mint were rolled back along with the counter.
    assert_eq!(funds, MarketFunds::new());
    assert_eq!(market, before_market);
}

#[test]
fn vault_overflow_aborts_with_no_partial_effect() {
    let mut market = open_market();
    let mut funds = MarketFunds {
        vault_balance: u64::MAX,
        yes_supply: 0,
        no_supply: 0,
    };
    let before_funds = funds;
    let r = bet(&mut market, &mut funds, 1, false, 10);
    assert_eq!(r, Err(MarketError::ArithmeticOverflow));
    assert_eq!(funds, before_funds);
    assert_eq!(market.no_pool, 0);
}
