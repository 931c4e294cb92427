use perpetual_option_token::config::Config;
use perpetual_option_token::engine::{
    get_payout, liquidate, mint_option, redeem_option, MintTransfers, RedeemTransfers,
    EXPIRY_SECONDS,
};
use perpetual_option_token::errors::OptionError;
use perpetual_option_token::oracle::PriceOracle;
use perpetual_option_token::position::Position;

const ADMIN: u64 = 11;
const USER: u64 = 22;
const STRIKE: u64 = 3_000_000_000_000; // $30,000 at 8 decimals
const PRICE: u64 = 3_500_000_000_000; // $35,000 at 8 decimals

fn par_config() -> Config {
    // A 100% ratio, which the self-referential collateral gate accepts.
    Config {
        authority: ADMIN,
        strike_price: STRIKE,
        collateralization_ratio: 1_000_000,
        paused: false,
    }
}

fn oracle() -> PriceOracle {
    PriceOracle { price: PRICE }
}

fn open_position(amount: u64, timestamp: i64) -> Position {
    Position { owner: USER, amount, timestamp }
}

#[test]
fn mint_splits_fee_and_mints_net() {
    let cfg = par_config();
    let mut pos = open_position(0, 0);
    let t = mint_option(&cfg, &mut pos, USER, 1999, 500).unwrap();
    assert_eq!(
        t,
        MintTransfers {
            collateral_to_treasury: 1,
            collateral_to_vault: 1998,
            options_to_user: 1998,
        }
    );
    assert_eq!(pos, Position { owner: USER, amount: 1998, timestamp: 500 });
}

#[test]
fn mint_of_less_than_the_fee_divisor_is_free() {
    let cfg = par_config();
    let mut pos = open_position(0, 0);
    let t = mint_option(&cfg, &mut pos, USER, 999, 500).unwrap();
    assert_eq!(t.collateral_to_treasury, 0);
    assert_eq!(t.collateral_to_vault, 999);
}

#[test]
fn mint_while_paused_is_rejected() {
    let mut cfg = par_config();
    cfg.paused = true;
    let mut pos = open_position(10, 100);
    let before = pos;
    assert_eq!(
        mint_option(&cfg, &mut pos, USER, 1_000, 500),
        Err(OptionError::Paused)
    );
    assert_eq!(pos, before);
}

#[test]
fn mint_above_par_ratio_is_rejected() {
    // With a ratio above 100%, the deposit-equals-minted check fails for
    // any positive amount.
    let mut cfg = par_config();
    cfg.collateralization_ratio = 1_500_000;
    let mut pos = open_position(0, 0);
    assert_eq!(
        mint_option(&cfg, &mut pos, USER, 1_000_000, 500),
        Err(OptionError::Undercollateralized)
    );
    assert_eq!(pos.amount, 0);
}

#[test]
fn mint_of_zero_passes_the_gate_even_above_par() {
    let mut cfg = par_config();
    cfg.collateralization_ratio = 1_500_000;
    let mut pos = open_position(0, 0);
    let t = mint_option(&cfg, &mut pos, USER, 0, 500).unwrap();
    assert_eq!(t.collateral_to_vault, 0);
    assert_eq!(pos.timestamp, 500);
}

#[test]
fn mint_with_overflowing_collateral_product_is_rejected() {
    let cfg = par_config();
    let mut pos = open_position(0, 0);
    assert_eq!(
        mint_option(&cfg, &mut pos, USER, u64::MAX, 500),
        Err(OptionError::Undercollateralized)
    );
}

#[test]
fn mint_overflowing_the_position_is_rejected() {
    let cfg = par_config();
    let mut pos = open_position(u64::MAX - 10, 100);
    let before = pos;
    assert_eq!(
        mint_option(&cfg, &mut pos, USER, 2_000, 500),
        Err(OptionError::Undercollateralized)
    );
    assert_eq!(pos, before);
}

#[test]
fn mint_restamps_the_timestamp() {
    let cfg = par_config();
    let mut pos = open_position(50, 100);
    mint_option(&cfg, &mut pos, USER, 1_000, 9_000).unwrap();
    assert_eq!(pos.timestamp, 9_000);
    assert_eq!(pos.amount, 50 + 999);
}

#[test]
fn redeem_pays_net_and_fee_from_the_vault() {
    let cfg = par_config();
    let mut pos = open_position(999_000, 0);
    let t = redeem_option(&cfg, &oracle(), &mut pos, 999_000, 100).unwrap();
    assert_eq!(
        t,
        RedeemTransfers {
            options_burned: 999_000,
            collateral_to_user: 4_990_005_000,
            collateral_to_treasury: 4_995_000,
        }
    );
    assert_eq!(pos, Position { owner: USER, amount: 0, timestamp: 0 });
}

#[test]
fn redeem_keeps_the_timestamp_on_partial_redeem() {
    let cfg = par_config();
    let mut pos = open_position(1_000, 77);
    let o = PriceOracle { price: STRIKE + 100_000_000 };
    let t = redeem_option(&cfg, &o, &mut pos, 400, 100).unwrap();
    // One dollar of intrinsic value per unit: raw payout 400, fee floors
    // to zero.
    assert_eq!(t.collateral_to_user, 400);
    assert_eq!(t.collateral_to_treasury, 0);
    assert_eq!(pos, Position { owner: USER, amount: 600, timestamp: 77 });
}

#[test]
fn redeem_while_paused_is_rejected() {
    let mut cfg = par_config();
    cfg.paused = true;
    let mut pos = open_position(1_000, 0);
    assert_eq!(
        redeem_option(&cfg, &oracle(), &mut pos, 100, 100),
        Err(OptionError::Paused)
    );
    assert_eq!(pos.amount, 1_000);
}

#[test]
fn redeem_one_second_before_expiry_succeeds() {
    let cfg = par_config();
    let mut pos = open_position(1_000, 1_000);
    assert!(redeem_option(&cfg, &oracle(), &mut pos, 100, 1_000 + EXPIRY_SECONDS - 1).is_ok());
}

#[test]
fn redeem_at_expiry_is_rejected() {
    let cfg = par_config();
    let mut pos = open_position(1_000, 1_000);
    assert_eq!(
        redeem_option(&cfg, &oracle(), &mut pos, 100, 1_000 + EXPIRY_SECONDS),
        Err(OptionError::ExpiredPosition)
    );
    assert_eq!(pos.amount, 1_000);
}

#[test]
fn redeem_with_overflowing_elapsed_time_is_rejected() {
    // now - timestamp overflows the signed 64-bit clock: treated as expired.
    let cfg = par_config();
    let mut pos = open_position(1_000, i64::MIN);
    assert_eq!(
        redeem_option(&cfg, &oracle(), &mut pos, 100, 1),
        Err(OptionError::ExpiredPosition)
    );
}

#[test]
fn redeem_before_the_last_mint_time_still_succeeds() {
    // A clock behind the stamp gives a negative elapsed time, which the
    // expiry check lets through.
    let cfg = par_config();
    let mut pos = open_position(1_000, 5_000);
    assert!(redeem_option(&cfg, &oracle(), &mut pos, 100, 4_000).is_ok());
}

#[test]
fn redeem_at_the_strike_is_rejected() {
    let cfg = par_config();
    let mut pos = open_position(1_000, 0);
    let o = PriceOracle { price: STRIKE };
    assert_eq!(
        redeem_option(&cfg, &o, &mut pos, 100, 100),
        Err(OptionError::BelowStrike)
    );
}

#[test]
fn redeem_below_the_strike_is_rejected() {
    let cfg = par_config();
    let mut pos = open_position(1_000, 0);
    let o = PriceOracle { price: STRIKE - 1 };
    assert_eq!(
        redeem_option(&cfg, &o, &mut pos, 100, 100),
        Err(OptionError::BelowStrike)
    );
}

#[test]
fn redeem_with_overflowing_payout_is_rejected() {
    let cfg = Config { strike_price: 0, ..par_config() };
    let o = PriceOracle { price: u64::MAX };
    let mut pos = open_position(u64::MAX, 0);
    assert_eq!(
        redeem_option(&cfg, &o, &mut pos, u64::MAX, 100),
        Err(OptionError::Undercollateralized)
    );
}

#[test]
fn redeem_past_the_position_balance_is_rejected() {
    let cfg = par_config();
    let mut pos = open_position(99, 0);
    assert_eq!(
        redeem_option(&cfg, &oracle(), &mut pos, 100, 100),
        Err(OptionError::InsufficientBalance)
    );
    assert_eq!(pos.amount, 99);
}

#[test]
fn liquidate_at_or_below_the_strike_is_rejected() {
    let cfg = par_config();
    let mut pos = open_position(1_000, 0);
    let at = PriceOracle { price: STRIKE };
    let below = PriceOracle { price: STRIKE - 1 };
    assert_eq!(
        liquidate(&cfg, &at, &mut pos, 0),
        Err(OptionError::BelowStrike)
    );
    assert_eq!(
        liquidate(&cfg, &below, &mut pos, 0),
        Err(OptionError::BelowStrike)
    );
}

#[test]
fn liquidate_a_covered_vault_is_rejected() {
    let cfg = par_config();
    let mut pos = open_position(1_000, 0);
    // Due is 5000 dollars of intrinsic value per unit over 1000 units:
    // 5_000_000 collateral units.
    assert_eq!(
        liquidate(&cfg, &oracle(), &mut pos, 5_000_000),
        Err(OptionError::Undercollateralized)
    );
    assert_eq!(pos.amount, 1_000);
}

#[test]
fn liquidate_seizes_the_whole_vault() {
    let cfg = par_config();
    let mut pos = open_position(1_000, 321);
    // The vault holds one unit less than the 5_000_000 due.
    assert_eq!(liquidate(&cfg, &oracle(), &mut pos, 4_999_999), Ok(4_999_999));
    assert_eq!(pos, Position { owner: USER, amount: 0, timestamp: 321 });
}

#[test]
fn liquidate_ignores_the_pause_flag() {
    let mut cfg = par_config();
    cfg.paused = true;
    let mut pos = open_position(1_000, 0);
    assert_eq!(liquidate(&cfg, &oracle(), &mut pos, 0), Ok(0));
    assert_eq!(pos.amount, 0);
}

#[test]
fn liquidate_with_overflowing_due_is_rejected() {
    let cfg = Config { strike_price: 0, ..par_config() };
    let o = PriceOracle { price: u64::MAX };
    let mut pos = open_position(u64::MAX, 0);
    assert_eq!(
        liquidate(&cfg, &o, &mut pos, 0),
        Err(OptionError::Undercollateralized)
    );
}

#[test]
fn payout_preview_above_the_strike() {
    let cfg = par_config();
    assert_eq!(get_payout(&cfg, &oracle(), 999_000), Ok(4_995_000_000));
}

#[test]
fn payout_preview_at_or_below_the_strike_is_zero() {
    let cfg = par_config();
    assert_eq!(get_payout(&cfg, &PriceOracle { price: STRIKE }, 1_000), Ok(0));
    assert_eq!(get_payout(&cfg, &PriceOracle { price: 0 }, 1_000), Ok(0));
}

#[test]
fn payout_preview_overflow_is_rejected() {
    let cfg = Config { strike_price: 0, ..par_config() };
    let o = PriceOracle { price: u64::MAX };
    assert_eq!(
        get_payout(&cfg, &o, u64::MAX),
        Err(OptionError::Undercollateralized)
    );
}

#[test]
fn payout_preview_ignores_the_pause_flag() {
    let mut cfg = par_config();
    cfg.paused = true;
    assert_eq!(get_payout(&cfg, &oracle(), 999_000), Ok(4_995_000_000));
}
