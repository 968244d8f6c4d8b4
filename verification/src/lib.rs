//! A binary-outcome prediction market: a creator opens a market tied to a
//! future event, bettors deposit a bet token and receive YES/NO position
//! tokens, the creator settles the outcome after expiry, and holders of the
//! winning side redeem their tokens for a proportional share of the vault.
//!
//! The library covers the market lifecycle state machine and the
//! settlement/redemption accounting. Custody of value lives on an external
//! token ledger; its live per-market state (vault balance and outstanding
//! position-token supplies) is modelled by [`funds::MarketFunds`], so the
//! accounting — in particular, that aggregate redemption payouts can never
//! exceed the escrowed funds — is stated and proved here.

pub mod betting;
pub mod conservation;
pub mod errors;
pub mod funds;
pub mod market;
pub mod redemption;
pub mod registry;
pub mod settlement;
