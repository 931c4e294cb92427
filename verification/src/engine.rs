//! The settlement engine: mint, redeem, liquidate and payout preview.
//!
//! Each operation reads the configuration, the oracle price and the
//! caller's position as plain values, computes with overflow-checked
//! fixed-point arithmetic, updates the position in place, and returns the
//! transfer commands the external ledger service is to execute. An
//! operation that fails returns its error, changes no state and issues no
//! commands: each call is all-or-nothing, matching the host's atomic
//! transaction model.

use vstd::prelude::*;

use crate::config::Config;
use crate::errors::OptionError;
use crate::math::{
    fee_of, is_sufficient_collateral, net_of, scaled_mul_div, split_fee, sufficient_collateral,
    FEE_DIVISOR, PRICE_SCALE,
};
use crate::oracle::PriceOracle;
use crate::position::Position;

verus! {

/// Seconds after its last mint at which a position expires: 90 days.
pub const EXPIRY_SECONDS: i64 = 90 * 86_400;

/// The ledger commands a successful mint issues. The user's deposit of
/// `amount` collateral is split fee/net, and `net` fresh option tokens are
/// minted against the `net` collateral now in the vault.
#[derive(Clone, Copy, Debug, PartialEq, Eq, Structural)]
pub struct MintTransfers {
    /// Collateral moved from the user to the treasury: the mint fee.
    pub collateral_to_treasury: u64,
    /// Collateral moved from the user to the vault: the deposit net of
    /// the fee.
    pub collateral_to_vault: u64,
    /// Option tokens minted to the user; equals the collateral that
    /// reached the vault.
    pub options_to_user: u64,
}

/// The ledger commands a successful redeem issues: the redeemed option
/// tokens are burned, and the intrinsic value leaves the vault split
/// net/fee between user and treasury.
#[derive(Clone, Copy, Debug, PartialEq, Eq, Structural)]
pub struct RedeemTransfers {
    /// Option tokens burned from the user's balance.
    pub options_burned: u64,
    /// Collateral moved from the vault to the user: the raw payout net of
    /// the fee.
    pub collateral_to_user: u64,
    /// Collateral moved from the vault to the treasury: the redeem fee.
    pub collateral_to_treasury: u64,
}

/// Intrinsic value of `amount` option units at `price` against `strike`:
/// `floor((price - strike) * amount / 10^8)`, and zero at or below the
/// strike.
pub open spec fn payout_of(price: u64, strike: u64, amount: u64) -> int {
    if price <= strike {
        0
    } else {
        (price - strike) * amount / PRICE_SCALE as int
    }
}

/// Whether a position last minted at `timestamp` is expired at `now`:
/// ninety days have elapsed, or the elapsed-time subtraction overflows a
/// 64-bit signed clock (treated as expired, fail-closed).
pub open spec fn expired(now: i64, timestamp: i64) -> bool {
    now - timestamp >= EXPIRY_SECONDS || now - timestamp < i64::MIN
}

/// Everything `mint_option` does, as one function of its inputs: the
/// result it returns and the position it leaves behind.
pub open spec fn mint_outcome(cfg: Config, pos: Position, user: u64, amount: u64, now: i64) -> (
    Result<MintTransfers, OptionError>,
    Position,
) {
    if cfg.paused {
        (Err(OptionError::Paused), pos)
    } else if !sufficient_collateral(amount, amount, cfg.collateralization_ratio) {
        (Err(OptionError::Undercollateralized), pos)
    } else if pos.amount + net_of(amount) > u64::MAX {
        (Err(OptionError::Undercollateralized), pos)
    } else {
        (
            Ok(
                MintTransfers {
                    collateral_to_treasury: fee_of(amount) as u64,
                    collateral_to_vault: net_of(amount) as u64,
                    options_to_user: net_of(amount) as u64,
                },
            ),
            Position {
                owner: user,
                amount: (pos.amount + net_of(amount)) as u64,
                timestamp: now,
            },
        )
    }
}

/// Everything `redeem_option` does, as one function of its inputs.
pub open spec fn redeem_outcome(
    cfg: Config,
    oracle: PriceOracle,
    pos: Position,
    amount: u64,
    now: i64,
) -> (Result<RedeemTransfers, OptionError>, Position) {
    if cfg.paused {
        (Err(OptionError::Paused), pos)
    } else if expired(now, pos.timestamp) {
        (Err(OptionError::ExpiredPosition), pos)
    } else if oracle.price <= cfg.strike_price {
        (Err(OptionError::BelowStrike), pos)
    } else if payout_of(oracle.price, cfg.strike_price, amount) > u64::MAX {
        (Err(OptionError::Undercollateralized), pos)
    } else if amount > pos.amount {
        (Err(OptionError::InsufficientBalance), pos)
    } else {
        let raw = payout_of(oracle.price, cfg.strike_price, amount);
        (
            Ok(
                RedeemTransfers {
                    options_burned: amount,
                    collateral_to_user: (raw - raw / FEE_DIVISOR as int) as u64,
                    collateral_to_treasury: (raw / FEE_DIVISOR as int) as u64,
                },
            ),
            Position {
                owner: pos.owner,
                amount: (pos.amount - amount) as u64,
                timestamp: pos.timestamp,
            },
        )
    }
}

/// Everything `liquidate` does, as one function of its inputs: the seized
/// amount (the entire vault balance) or the error, and the position left
/// behind.
pub open spec fn liquidate_outcome(
    cfg: Config,
    oracle: PriceOracle,
    pos: Position,
    vault_balance: u64,
) -> (Result<u64, OptionError>, Position) {
    if oracle.price <= cfg.strike_price {
        (Err(OptionError::BelowStrike), pos)
    } else if payout_of(oracle.price, cfg.strike_price, pos.amount) > u64::MAX {
        (Err(OptionError::Undercollateralized), pos)
    } else if vault_balance >= payout_of(oracle.price, cfg.strike_price, pos.amount) {
        (Err(OptionError::Undercollateralized), pos)
    } else {
        (
            Ok(vault_balance),
            Position { owner: pos.owner, amount: 0, timestamp: pos.timestamp },
        )
    }
}

/// Everything `get_payout` returns, as one function of its inputs.
pub open spec fn payout_outcome(cfg: Config, oracle: PriceOracle, amount: u64) -> Result<
    u64,
    OptionError,
> {
    if oracle.price <= cfg.strike_price {
        Ok(0)
    } else if payout_of(oracle.price, cfg.strike_price, amount) > u64::MAX {
        Err(OptionError::Undercollateralized)
    } else {
        Ok(payout_of(oracle.price, cfg.strike_price, amount) as u64)
    }
}

/// Mint option tokens for a deposit of `amount` collateral.
///
/// Rejected with `Paused` while the protocol is paused, and with
/// `Undercollateralized` when the collateral check fails (both sides of
/// that check are the deposit itself, so it gates on the configured ratio,
/// not on the caller) or when the position balance would overflow. On
/// success the deposit is split `floor(amount/1000)` to the treasury and
/// the rest to the vault, the same rest is minted to the user, and the
/// position is stamped with `now` and owned by `user`.
pub fn mint_option(cfg: &Config, position: &mut Position, user: u64, amount: u64, now: i64) -> (r:
    Result<MintTransfers, OptionError>)
    ensures
        (r, *final(position)) == mint_outcome(*cfg, *old(position), user, amount, now),
{
    if cfg.paused {
        return Err(OptionError::Paused);
    }
    if !is_sufficient_collateral(amount, amount, cfg.collateralization_ratio) {
        return Err(OptionError::Undercollateralized);
    }
    let (fee, net) = split_fee(amount);
    match position.increase(net, now) {
        Ok(()) => {
            position.owner = user;
            Ok(
                MintTransfers {
                    collateral_to_treasury: fee,
                    collateral_to_vault: net,
                    options_to_user: net,
                },
            )
        },
        Err(e) => Err(e),
    }
}

/// Redeem `amount` option tokens for their intrinsic value, net of the
/// redeem fee.
///
/// Rejected with `Paused` while paused; with `ExpiredPosition` once ninety
/// days have elapsed since the last mint (or the elapsed-time subtraction
/// overflows); with `BelowStrike` at or below the strike; with
/// `Undercollateralized` when the raw payout overflows 64 bits; and with
/// `InsufficientBalance` when `amount` exceeds the position. On success
/// `amount` tokens are burned, the vault pays the user the raw payout less
/// `floor(raw/1000)`, the treasury receives that fee, and the position
/// shrinks by `amount` with its timestamp unchanged.
pub fn redeem_option(
    cfg: &Config,
    oracle: &PriceOracle,
    position: &mut Position,
    amount: u64,
    now: i64,
) -> (r: Result<RedeemTransfers, OptionError>)
    ensures
        (r, *final(position)) == redeem_outcome(*cfg, *oracle, *old(position), amount, now),
{
    if cfg.paused {
        return Err(OptionError::Paused);
    }
    let elapsed = match now.checked_sub(position.timestamp) {
        Some(e) => e,
        None => return Err(OptionError::ExpiredPosition),
    };
    if elapsed >= EXPIRY_SECONDS {
        return Err(OptionError::ExpiredPosition);
    }
    if oracle.price <= cfg.strike_price {
        return Err(OptionError::BelowStrike);
    }
    let diff = oracle.price - cfg.strike_price;
    let raw = match scaled_mul_div(diff, amount, PRICE_SCALE) {
        Ok(v) => v,
        Err(e) => return Err(e),
    };
    let (fee, net) = split_fee(raw);
    match position.decrease(amount) {
        Ok(()) => Ok(
            RedeemTransfers {
                options_burned: amount,
                collateral_to_user: net,
                collateral_to_treasury: fee,
            },
        ),
        Err(e) => Err(e),
    }
}

/// Seize the vault for the caller when it cannot cover the caller's own
/// position.
///
/// `due` is the intrinsic value of the position at the current price;
/// rejected with `BelowStrike` at or below the strike, with
/// `Undercollateralized` when `due` overflows, and with
/// `Undercollateralized` again unless `vault_balance < due` — only an
/// undercollateralized vault is liquidatable, the sole solvency gate in
/// the system. On success the entire vault balance (not `due`) is
/// transferred to the caller and the caller's own position is zeroed. The
/// pause flag plays no part.
pub fn liquidate(
    cfg: &Config,
    oracle: &PriceOracle,
    position: &mut Position,
    vault_balance: u64,
) -> (r: Result<u64, OptionError>)
    ensures
        (r, *final(position)) == liquidate_outcome(*cfg, *oracle, *old(position), vault_balance),
{
    if oracle.price <= cfg.strike_price {
        return Err(OptionError::BelowStrike);
    }
    let diff = oracle.price - cfg.strike_price;
    let due = match scaled_mul_div(diff, position.amount, PRICE_SCALE) {
        Ok(v) => v,
        Err(e) => return Err(e),
    };
    if vault_balance >= due {
        return Err(OptionError::Undercollateralized);
    }
    position.zero_out();
    Ok(vault_balance)
}

/// View-only payout preview: zero at or below the strike, otherwise the
/// intrinsic value of `amount` units with no fee deducted; fails only when
/// that value overflows 64 bits. Never mutates state.
pub fn get_payout(cfg: &Config, oracle: &PriceOracle, amount: u64) -> (r: Result<u64, OptionError>)
    ensures
        r == payout_outcome(*cfg, *oracle, amount),
{
    if oracle.price <= cfg.strike_price {
        return Ok(0);
    }
    let diff = oracle.price - cfg.strike_price;
    scaled_mul_div(diff, amount, PRICE_SCALE)
}

} // verus!
