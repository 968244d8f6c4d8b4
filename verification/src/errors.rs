//! The error taxonomy of the market operations.

use vstd::prelude::*;

verus! {

/// Every way a market operation can fail. Each precondition violation aborts
/// the whole operation before any effect, with a specific, stable kind.
#[derive(Clone, Copy, PartialEq, Eq, Structural, Debug)]
pub enum MarketError {
    /// `create_market`: the expiry instant is not strictly in the future.
    ExpiryInPast,
    /// `create_market`: the title exceeds the maximum length.
    TitleTooLong,
    /// `create_market`: the description exceeds the maximum length.
    DescriptionTooLong,
    /// `create_market`: a market with the same (creator, bet token, expiry)
    /// tuple already exists.
    MarketAlreadyExists,
    /// `place_bet`: the market is not in the `Open` state.
    MarketNotOpen,
    /// `place_bet`: betting closed because the expiry instant has passed.
    MarketExpired,
    /// `place_bet`: the deposited asset is not the market's bet token.
    InvalidBetToken,
    /// `place_bet`: a named position-token class is not the market's own.
    InvalidMint,
    /// `place_bet` / `redeem`: the named vault is not the market's own.
    InvalidVault,
    /// `place_bet`: the bet amount is zero.
    InvalidBetAmount,
    /// A checked addition overflowed; the operation has no effect.
    ArithmeticOverflow,
    /// `settle_market`: the caller is not the market's creator.
    Unauthorized,
    /// `settle_market`: the market has already been settled.
    AlreadySettled,
    /// `settle_market`: the expiry instant has not been reached yet.
    MarketNotExpired,
    /// `redeem`: the market has not been settled.
    NotSettled,
    /// `redeem`: the named class is not the winning position-token class.
    WrongMint,
    /// `redeem`: the redemption amount is zero.
    InvalidAmount,
    /// `redeem`: the winning class has no outstanding supply.
    NoWinningBets,
    /// `redeem`: the vault holds no funds.
    VaultEmpty,
    /// `redeem`: the computed payout is zero (dust); nothing is burned.
    PayoutTooSmall,
}

} // verus!
