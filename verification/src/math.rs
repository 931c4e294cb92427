//! Overflow-checked fixed-point arithmetic used by every other component.

use vstd::prelude::*;

use crate::errors::OptionError;

verus! {

/// Scale of the collateralization ratio: parts per million
/// (1_500_000 means 150%).
pub const RATIO_SCALE: u64 = 1_000_000;

/// Scale of prices and strike prices: 8 decimal places
/// (30_000 * 10^8 means $30,000).
pub const PRICE_SCALE: u64 = 100_000_000;

/// Divisor of the protocol fee: a fee is one part in 1000 (0.1%),
/// rounded down.
pub const FEE_DIVISOR: u64 = 1_000;

/// The protocol fee taken from `amount`: `floor(amount / 1000)`.
pub open spec fn fee_of(amount: u64) -> int {
    amount as int / FEE_DIVISOR as int
}

/// What remains of `amount` once the protocol fee is taken.
pub open spec fn net_of(amount: u64) -> int {
    amount as int - fee_of(amount)
}

/// Splits `amount` into the protocol fee and the net remainder:
/// `fee = floor(amount / 1000)`, `net = amount - fee`. This exact floor
/// split is the protocol's fee model, bit for bit.
pub fn split_fee(amount: u64) -> (r: (u64, u64))
    ensures
        r.0 == fee_of(amount),
        r.1 == net_of(amount),
        r.0 + r.1 == amount,
{
    let fee = amount / FEE_DIVISOR;
    (fee, amount - fee)
}

/// Whether `deposit` covers `minted` at `ratio` parts per million, judged
/// exactly as 64-bit overflow-checked arithmetic judges it: either side
/// whose product exceeds `u64::MAX` counts as insufficient (fail-closed,
/// never wrapping).
pub open spec fn sufficient_collateral(deposit: u64, minted: u64, ratio: u64) -> bool {
    &&& deposit * RATIO_SCALE <= u64::MAX
    &&& minted * ratio <= u64::MAX
    &&& deposit * RATIO_SCALE >= minted * ratio
}

/// The collateralization check: `deposit * 1_000_000 >= minted * ratio`,
/// with both products overflow-checked.
pub fn is_sufficient_collateral(deposit: u64, minted: u64, ratio: u64) -> (r: bool)
    ensures
        r == sufficient_collateral(deposit, minted, ratio),
{
    match (deposit.checked_mul(RATIO_SCALE), minted.checked_mul(ratio)) {
        (Some(lhs), Some(rhs)) => lhs >= rhs,
        _ => false,
    }
}

/// `floor(a * b / scale)` through a 128-bit intermediate product, wide
/// enough that the product itself never overflows; fails closed when the
/// scale is zero or the quotient does not fit in 64 bits.
pub fn scaled_mul_div(a: u64, b: u64, scale: u64) -> (r: Result<u64, OptionError>)
    ensures
        scale > 0 && a * b / scale as int <= u64::MAX ==> r == Ok::<u64, OptionError>(
            (a * b / scale as int) as u64,
        ),
        !(scale > 0 && a * b / scale as int <= u64::MAX) ==> r == Err::<u64, OptionError>(
            OptionError::Undercollateralized,
        ),
{
    if scale == 0 {
        return Err(OptionError::Undercollateralized);
    }
    proof {
        assert((a as int) * (b as int) <= (u64::MAX as int) * (u64::MAX as int))
            by (nonlinear_arith)
            requires
                a as int <= u64::MAX as int,
                b as int <= u64::MAX as int,
                0 <= a as int,
                0 <= b as int,
        ;
    }
    let wide: u128 = (a as u128) * (b as u128);
    let quotient: u128 = wide / (scale as u128);
    if quotient > u64::MAX as u128 {
        Err(OptionError::Undercollateralized)
    } else {
        Ok(quotient as u64)
    }
}

} // verus!
