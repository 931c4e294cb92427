//! The protocol's laws, stated over the engine's outcome functions and
//! proved once for all inputs.

use vstd::prelude::*;

use crate::config::{pause_update_outcome, strike_update_outcome, Config};
use crate::engine::{
    liquidate_outcome, mint_outcome, payout_of, payout_outcome, redeem_outcome, EXPIRY_SECONDS,
    MintTransfers, RedeemTransfers,
};
use crate::errors::OptionError;
use crate::math::{sufficient_collateral, FEE_DIVISOR, PRICE_SCALE, RATIO_SCALE};
use crate::oracle::PriceOracle;
use crate::position::Position;

verus! {

/// `cfg` with its pause flag replaced by `flag` and everything else kept.
pub open spec fn with_paused(cfg: Config, flag: bool) -> Config {
    Config {
        authority: cfg.authority,
        strike_price: cfg.strike_price,
        collateralization_ratio: cfg.collateralization_ratio,
        paused: flag,
    }
}

/// Fee conservation: whenever a mint succeeds, exactly `floor(amount/1000)`
/// of the deposit goes to the treasury, the remainder goes to the vault,
/// the two commands together move exactly the deposit, and exactly the
/// vault's share is minted to the user and added to the position.
pub proof fn lemma_mint_fee_conservation(
    cfg: Config,
    pos: Position,
    user: u64,
    amount: u64,
    now: i64,
)
    ensures
        (mint_outcome(cfg, pos, user, amount, now).0 matches Ok(t) ==> {
            &&& t.collateral_to_treasury == amount as int / FEE_DIVISOR as int
            &&& t.collateral_to_vault == amount - t.collateral_to_treasury
            &&& t.options_to_user == t.collateral_to_vault
            &&& t.collateral_to_treasury + t.collateral_to_vault == amount
            &&& mint_outcome(cfg, pos, user, amount, now).1.amount == pos.amount
                + t.options_to_user
        }),
{
}

/// The mint gate in closed form: because mint checks the deposited amount
/// against itself, the collateral check passes for a positive amount
/// exactly when the configured ratio is at most 100% and the deposit is
/// small enough for the checked product — a protocol-level sanity gate on
/// the ratio, not a per-user leverage check.
pub proof fn lemma_mint_gate_is_amount_independent(amount: u64, ratio: u64)
    requires
        amount > 0,
    ensures
        sufficient_collateral(amount, amount, ratio) <==> (ratio <= RATIO_SCALE && amount
            * RATIO_SCALE <= u64::MAX),
{
    assert((amount as int) * (RATIO_SCALE as int) >= (amount as int) * (ratio as int) <==> ratio
        <= RATIO_SCALE) by (nonlinear_arith)
        requires
            amount > 0,
    ;
}

/// Payout formula: above the strike the preview is exactly
/// `floor((price - strike) * amount / 10^8)` whenever that value fits in
/// 64 bits, and at or below the strike it is zero.
pub proof fn lemma_preview_payout_formula(cfg: Config, oracle: PriceOracle, amount: u64)
    ensures
        oracle.price > cfg.strike_price && payout_of(oracle.price, cfg.strike_price, amount)
            <= u64::MAX ==> payout_outcome(cfg, oracle, amount) == Ok::<u64, OptionError>(
            ((oracle.price - cfg.strike_price) * amount / PRICE_SCALE as int) as u64,
        ),
        oracle.price <= cfg.strike_price ==> payout_outcome(cfg, oracle, amount) == Ok::<
            u64,
            OptionError,
        >(0),
{
}

/// Redeem fee split: whenever a redeem succeeds, the user is paid
/// `raw - floor(raw/1000)` and the treasury `floor(raw/1000)`, where `raw`
/// is the payout formula at the redeemed amount; exactly that amount is
/// burned and leaves the position, and the timestamp stands.
pub proof fn lemma_redeem_fee_split(
    cfg: Config,
    oracle: PriceOracle,
    pos: Position,
    amount: u64,
    now: i64,
)
    ensures
        (redeem_outcome(cfg, oracle, pos, amount, now).0 matches Ok(t) ==> {
            let raw = payout_of(oracle.price, cfg.strike_price, amount);
            &&& t.collateral_to_user == raw - raw / FEE_DIVISOR as int
            &&& t.collateral_to_treasury == raw / FEE_DIVISOR as int
            &&& t.collateral_to_user + t.collateral_to_treasury == raw
            &&& t.options_burned == amount
            &&& redeem_outcome(cfg, oracle, pos, amount, now).1.amount == pos.amount - amount
            &&& redeem_outcome(cfg, oracle, pos, amount, now).1.timestamp == pos.timestamp
        }),
{
}

/// Expiry boundary: with the other gates open, a redeem one second short
/// of ninety days still succeeds, and from ninety days on it fails with
/// `ExpiredPosition`.
pub proof fn lemma_redeem_expiry_boundary(
    cfg: Config,
    oracle: PriceOracle,
    pos: Position,
    amount: u64,
    now: i64,
)
    requires
        !cfg.paused,
    ensures
        now - pos.timestamp == EXPIRY_SECONDS - 1 && oracle.price > cfg.strike_price && payout_of(
            oracle.price,
            cfg.strike_price,
            amount,
        ) <= u64::MAX && amount <= pos.amount ==> redeem_outcome(
            cfg,
            oracle,
            pos,
            amount,
            now,
        ).0 is Ok,
        now - pos.timestamp >= EXPIRY_SECONDS ==> redeem_outcome(cfg, oracle, pos, amount, now)
            == (Err::<RedeemTransfers, OptionError>(OptionError::ExpiredPosition), pos),
{
}

/// Pause gating: while paused, mint and redeem fail with `Paused` and
/// leave the position as it was; the liquidation and preview outcomes, and
/// what the admin operations return, do not depend on the flag at all (a
/// strike update commutes with flipping it).
pub proof fn lemma_pause_gating(
    cfg: Config,
    oracle: PriceOracle,
    pos: Position,
    caller: u64,
    amount: u64,
    now: i64,
    vault_balance: u64,
    flag: bool,
)
    ensures
        cfg.paused ==> mint_outcome(cfg, pos, caller, amount, now) == (
            Err::<MintTransfers, OptionError>(OptionError::Paused),
            pos,
        ),
        cfg.paused ==> redeem_outcome(cfg, oracle, pos, amount, now) == (
            Err::<RedeemTransfers, OptionError>(OptionError::Paused),
            pos,
        ),
        liquidate_outcome(with_paused(cfg, flag), oracle, pos, vault_balance) == liquidate_outcome(
            cfg,
            oracle,
            pos,
            vault_balance,
        ),
        payout_outcome(with_paused(cfg, flag), oracle, amount) == payout_outcome(
            cfg,
            oracle,
            amount,
        ),
        strike_update_outcome(with_paused(cfg, flag), caller, amount).0 == strike_update_outcome(
            cfg,
            caller,
            amount,
        ).0,
        strike_update_outcome(with_paused(cfg, flag), caller, amount).1 == with_paused(
            strike_update_outcome(cfg, caller, amount).1,
            flag,
        ),
        pause_update_outcome(with_paused(cfg, flag), caller, false).0 == pause_update_outcome(
            cfg,
            caller,
            false,
        ).0,
{
}

/// Liquidation gate: above the strike, liquidation fails with
/// `Undercollateralized` unless the vault holds strictly less than what
/// the position is due; when it does, the entire vault balance — not the
/// amount due — is seized and the caller's own position is zeroed in
/// place.
pub proof fn lemma_liquidation_gate(
    cfg: Config,
    oracle: PriceOracle,
    pos: Position,
    vault_balance: u64,
)
    requires
        oracle.price > cfg.strike_price,
        payout_of(oracle.price, cfg.strike_price, pos.amount) <= u64::MAX,
    ensures
        vault_balance >= payout_of(oracle.price, cfg.strike_price, pos.amount)
            ==> liquidate_outcome(cfg, oracle, pos, vault_balance) == (
            Err::<u64, OptionError>(OptionError::Undercollateralized),
            pos,
        ),
        vault_balance < payout_of(oracle.price, cfg.strike_price, pos.amount)
            ==> liquidate_outcome(cfg, oracle, pos, vault_balance) == (
            Ok::<u64, OptionError>(vault_balance),
            Position { owner: pos.owner, amount: 0, timestamp: pos.timestamp },
        ),
{
}

} // verus!
