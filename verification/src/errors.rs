//! The error taxonomy of the settlement core.

use vstd::prelude::*;

verus! {

/// Why an operation was rejected. Every error is terminal for the call that
/// raised it: the operation commits nothing and the caller may retry once
/// the triggering condition has changed.
///
/// Arithmetic overflow in a value computation is deliberately mapped to
/// `Undercollateralized` rather than wrapping (fail-closed policy).
#[derive(Clone, Copy, Debug, PartialEq, Eq, Structural)]
pub enum OptionError {
    /// The oracle price is at or below the strike price, so the option has
    /// no intrinsic value.
    BelowStrike,
    /// The collateral check failed, or an overflow-checked value
    /// computation overflowed.
    Undercollateralized,
    /// Mint or redeem was attempted while the protocol is paused.
    Paused,
    /// Redemption was attempted at or after the 90-day expiry, or the
    /// elapsed-time subtraction overflowed.
    ExpiredPosition,
    /// A decrease asked for more than the position's outstanding balance.
    InsufficientBalance,
    /// An admin operation came from a caller other than the authority.
    Unauthorized,
    /// A second attempt to create the protocol configuration.
    AlreadyInitialized,
}

} // verus!
