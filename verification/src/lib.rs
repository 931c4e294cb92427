//! Settlement core of a leveraged call-option token.
//!
//! Users deposit collateral to mint a synthetic call-option token, redeem it
//! for its intrinsic value against a reference price, and a liquidation path
//! seizes vault collateral when the vault cannot cover what a position is
//! due. This crate holds the financial state machine only: collateralization
//! checks, fixed-point payout computation, fee extraction, the position
//! lifecycle, and the admin controls that gate it. The execution host that
//! authenticates callers and persists records, the token ledger that moves
//! value on the engine's instructions, and the price oracle are external
//! collaborators: the engine takes their readings as plain values and hands
//! back the transfer commands they are to perform.

pub mod config;
pub mod engine;
pub mod errors;
pub mod laws;
pub mod math;
pub mod oracle;
pub mod position;
