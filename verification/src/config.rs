//! Protocol-wide configuration and the admin operations that mutate it.

use vstd::prelude::*;

use crate::errors::OptionError;

verus! {

/// The protocol-wide configuration singleton. It is created once at
/// genesis and mutated only by admin operations; the host persists it and
/// hands the engine a fresh copy on every call.
///
/// Caller and authority identities are host-verified account identifiers,
/// abstracted here to plain numbers: the host's key-verification layer is
/// an external collaborator, and the core only ever compares identities
/// for equality.
#[derive(Clone, Copy, Debug, PartialEq, Eq, Structural)]
pub struct Config {
    /// The identity allowed to mutate this configuration.
    pub authority: u64,
    /// Strike price, fixed-point with 8 decimal places, on the same scale
    /// as the oracle price.
    pub strike_price: u64,
    /// Required collateral-to-minted proportion, in parts per million.
    pub collateralization_ratio: u64,
    /// While true, mint and redeem are rejected; liquidation and admin
    /// operations are unaffected.
    pub paused: bool,
}

/// What `initialize` returns: the freshly created configuration, or
/// `AlreadyInitialized` when the singleton already exists.
pub open spec fn initialize_outcome(
    existing: Option<Config>,
    authority: u64,
    strike_price: u64,
    collateralization_ratio: u64,
) -> Result<Config, OptionError> {
    match existing {
        Some(_) => Err(OptionError::AlreadyInitialized),
        None => Ok(
            Config {
                authority,
                strike_price,
                collateralization_ratio,
                paused: false,
            },
        ),
    }
}

/// What `update_strike_price` returns and leaves behind: the strike is
/// overwritten unconditionally for the authority, and nothing changes for
/// anyone else.
pub open spec fn strike_update_outcome(cfg: Config, caller: u64, new_price: u64) -> (Result<
    (),
    OptionError,
>, Config) {
    if caller == cfg.authority {
        (
            Ok(()),
            Config {
                authority: cfg.authority,
                strike_price: new_price,
                collateralization_ratio: cfg.collateralization_ratio,
                paused: cfg.paused,
            },
        )
    } else {
        (Err(OptionError::Unauthorized), cfg)
    }
}

/// What `set_paused` returns and leaves behind.
pub open spec fn pause_update_outcome(cfg: Config, caller: u64, flag: bool) -> (Result<
    (),
    OptionError,
>, Config) {
    if caller == cfg.authority {
        (
            Ok(()),
            Config {
                authority: cfg.authority,
                strike_price: cfg.strike_price,
                collateralization_ratio: cfg.collateralization_ratio,
                paused: flag,
            },
        )
    } else {
        (Err(OptionError::Unauthorized), cfg)
    }
}

/// Creates the configuration singleton with the pause flag cleared, or
/// fails with `AlreadyInitialized` when a configuration already exists
/// (`existing` is the host's read of the singleton record).
pub fn initialize(
    existing: Option<Config>,
    authority: u64,
    strike_price: u64,
    collateralization_ratio: u64,
) -> (r: Result<Config, OptionError>)
    ensures
        r == initialize_outcome(existing, authority, strike_price, collateralization_ratio),
{
    match existing {
        Some(_) => Err(OptionError::AlreadyInitialized),
        None => Ok(
            Config {
                authority,
                strike_price,
                collateralization_ratio,
                paused: false,
            },
        ),
    }
}

/// Admin: overwrite the strike price. Fails with `Unauthorized`, changing
/// nothing, unless `caller` is the stored authority; there is no bounds
/// check on the new price.
pub fn update_strike_price(cfg: &mut Config, caller: u64, new_price: u64) -> (r: Result<
    (),
    OptionError,
>)
    ensures
        (r, *final(cfg)) == strike_update_outcome(*old(cfg), caller, new_price),
{
    if caller != cfg.authority {
        return Err(OptionError::Unauthorized);
    }
    cfg.strike_price = new_price;
    Ok(())
}

/// Admin: pause or unpause the protocol. Fails with `Unauthorized`,
/// changing nothing, unless `caller` is the stored authority.
pub fn set_paused(cfg: &mut Config, caller: u64, flag: bool) -> (r: Result<(), OptionError>)
    ensures
        (r, *final(cfg)) == pause_update_outcome(*old(cfg), caller, flag),
{
    if caller != cfg.authority {
        return Err(OptionError::Unauthorized);
    }
    cfg.paused = flag;
    Ok(())
}

} // verus!
