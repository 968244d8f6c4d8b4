use prediction_market::errors::MarketError;
use prediction_market::market::{
    derive_resource, AccountId, MarketKey, MarketStatus, ResourceKind,
};
use prediction_market::registry::MarketRegistry;

fn creator() -> AccountId {
    AccountId { raw: 11 }
}

fn bet_token() -> AccountId {
    AccountId { raw: 77 }
}

#[test]
fn valid_creation_yields_open_market_with_zero_pools() {
    let mut registry = MarketRegistry::new();
    let market = registry
        .create_market(
            creator(),
            String::from("Will it rain tomorrow?"),
            String::from("Resolves YES if any rain falls."),
            bet_token(),
            1_000,
            0,
        )
        .unwrap();
    assert_eq!(market.status, MarketStatus::Open);
    assert_eq!(market.yes_pool, 0);
    assert_eq!(market.no_pool, 0);
    assert_eq!(market.creator, creator());
    assert_eq!(market.bet_token_mint, bet_token());
    assert_eq!(market.expiry_timestamp, 1_000);
    assert_eq!(market.title, "Will it rain tomorrow?");
    assert_eq!(market.description, "Resolves YES if any rain falls.");
}

#[test]
fn creation_derives_resources_from_the_identifying_tuple() {
    let mut registry = MarketRegistry::new();
    let market = registry
        .create_market(
            creator(),
            String::from("t"),
            String::from("d"),
            bet_token(),
            1_000,
            0,
        )
        .unwrap();
    let key = MarketKey {
        creator: creator(),
        bet_token_mint: bet_token(),
        expiry_timestamp: 1_000,
    };
    assert_eq!(market.vault, derive_resource(key, ResourceKind::Vault));
    assert_eq!(market.yes_mint, derive_resource(key, ResourceKind::YesMint));
    assert_eq!(market.no_mint, derive_resource(key, ResourceKind::NoMint));
    assert_ne!(market.vault, market.yes_mint);
    assert_ne!(market.yes_mint, market.no_mint);
}

#[test]
fn recreating_the_same_tuple_fails() {
    let mut registry = MarketRegistry::new();
    registry
        .create_market(
            creator(),
            String::from("first"),
            String::from("d"),
            bet_token(),
            1_000,
            0,
        )
        .unwrap();
    let again = registry.create_market(
        creator(),
        String::from("second, different title"),
        String::from("different description"),
        bet_token(),
        1_000,
        5,
    );
    assert_eq!(again, Err(MarketError::MarketAlreadyExists));
    // A different tuple is a different market.
    let other = registry.create_market(
        creator(),
        String::from("second"),
        String::from("d"),
        bet_token(),
        2_000,
        0,
    );
    assert!(other.is_ok());
}

#[test]
fn expiry_must_lie_strictly_in_the_future() {
    let mut registry = MarketRegistry::new();
    let past = registry.create_market(
        creator(),
        String::from("t"),
        String::from("d"),
        bet_token(),
        50,
        100,
    );
    assert_eq!(past, Err(MarketError::ExpiryInPast));
    let at_now = registry.create_market(
        creator(),
        String::from("t"),
        String::from("d"),
        bet_token(),
        100,
        100,
    );
    assert_eq!(at_now, Err(MarketError::ExpiryInPast));
    assert!(registry
        .create_market(
            creator(),
            String::from("t"),
            String::from("d"),
            bet_token(),
            101,
            100,
        )
        .is_ok());
}

#[test]
fn title_longer_than_128_is_rejected() {
    let mut registry = MarketRegistry::new();
    let r = registry.create_market(
        creator(),
        "x".repeat(129),
        String::from("d"),
        bet_token(),
        1_000,
        0,
    );
    assert_eq!(r, Err(MarketError::TitleTooLong));
    let r = registry.create_market(
        creator(),
        "x".repeat(128),
        String::from("d"),
        bet_token(),
        1_000,
        0,
    );
    assert!(r.is_ok());
}

#[test]
fn description_longer_than_512_is_rejected() {
    let mut registry = MarketRegistry::new();
    let r = registry.create_market(
        creator(),
        String::from("t"),
        "y".repeat(513),
        bet_token(),
        1_000,
        0,
    );
    assert_eq!(r, Err(MarketError::DescriptionTooLong));
    let r = registry.create_market(
        creator(),
        String::from("t"),
        "y".repeat(512),
        bet_token(),
        1_000,
        0,
    );
    assert!(r.is_ok());
}

#[test]
fn failed_creation_leaves_the_registry_unchanged() {
    let mut registry = MarketRegistry::new();
    let r = registry.create_market(
        creator(),
        "x".repeat(129),
        String::from("d"),
        bet_token(),
        1_000,
        0,
    );
    assert_eq!(r, Err(MarketError::TitleTooLong));
    // The tuple was not recorded: a valid retry succeeds.
    let retry = registry.create_market(
        creator(),
        String::from("t"),
        String::from("d"),
        bet_token(),
        1_000,
        0,
    );
    assert!(retry.is_ok());
}
