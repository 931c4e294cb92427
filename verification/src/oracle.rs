//! The price oracle's snapshot as the engine reads it.

use vstd::prelude::*;

verus! {

/// An instantaneous reading of the external price oracle. The price is
/// fixed-point with 8 decimal places, on the same scale as the strike
/// price. No staleness is modeled: the host hands the engine whatever the
/// oracle record holds at call time.
#[derive(Clone, Copy, Debug, PartialEq, Eq, Structural)]
pub struct PriceOracle {
    /// Current reference price of the underlying, 8 decimal places.
    pub price: u64,
}

} // verus!
