//! Per-user position records: the option-token balance a user has
//! outstanding and the time of their last mint.

use vstd::prelude::*;

use crate::errors::OptionError;

verus! {

/// One user's position. The host persists one record per user, keyed by
/// the owner's identity, and hands the engine a fresh copy each call. A
/// position is created on first mint, updated on every mint or redeem, and
/// zeroed (never deleted) on liquidation.
#[derive(Clone, Copy, Debug, PartialEq, Eq, Structural)]
pub struct Position {
    /// The user this position belongs to.
    pub owner: u64,
    /// Outstanding option-token balance.
    pub amount: u64,
    /// Time of the last mint, in seconds. Each mint resets it; redeem and
    /// liquidation leave it unchanged, so under the host's monotone clock
    /// it never decreases.
    pub timestamp: i64,
}

/// What `get_or_create` hands back: the stored record when one exists, and
/// otherwise a zeroed position stamped with the current time.
pub open spec fn get_or_create_spec(existing: Option<Position>, owner: u64, now: i64) -> Position {
    match existing {
        Some(p) => p,
        None => Position { owner, amount: 0, timestamp: now },
    }
}

/// Returns the existing position, or a zero-initialized one for `owner`
/// stamped with the current time. Persisting a newly created record is the
/// storage layer's responsibility, not the engine's.
pub fn get_or_create(existing: Option<Position>, owner: u64, now: i64) -> (p: Position)
    ensures
        p == get_or_create_spec(existing, owner, now),
{
    match existing {
        Some(p) => p,
        None => Position { owner, amount: 0, timestamp: now },
    }
}

impl Position {
    /// Adds `delta` to the outstanding balance and stamps the position
    /// with the current time; fails closed with `Undercollateralized`,
    /// changing nothing, when the balance would overflow.
    pub fn increase(&mut self, delta: u64, now: i64) -> (r: Result<(), OptionError>)
        ensures
            old(self).amount + delta <= u64::MAX ==> {
                &&& r == Ok::<(), OptionError>(())
                &&& final(self).amount == old(self).amount + delta
                &&& final(self).timestamp == now
                &&& final(self).owner == old(self).owner
            },
            old(self).amount + delta > u64::MAX ==> {
                &&& r == Err::<(), OptionError>(OptionError::Undercollateralized)
                &&& *final(self) == *old(self)
            },
    {
        match self.amount.checked_add(delta) {
            Some(total) => {
                self.amount = total;
                self.timestamp = now;
                Ok(())
            },
            None => Err(OptionError::Undercollateralized),
        }
    }

    /// Subtracts `delta` from the outstanding balance, leaving the
    /// timestamp unchanged; fails with `InsufficientBalance`, changing
    /// nothing, when `delta` exceeds the balance.
    pub fn decrease(&mut self, delta: u64) -> (r: Result<(), OptionError>)
        ensures
            delta <= old(self).amount ==> {
                &&& r == Ok::<(), OptionError>(())
                &&& final(self).amount == old(self).amount - delta
                &&& final(self).timestamp == old(self).timestamp
                &&& final(self).owner == old(self).owner
            },
            delta > old(self).amount ==> {
                &&& r == Err::<(), OptionError>(OptionError::InsufficientBalance)
                &&& *final(self) == *old(self)
            },
    {
        match self.amount.checked_sub(delta) {
            Some(rest) => {
                self.amount = rest;
                Ok(())
            },
            None => Err(OptionError::InsufficientBalance),
        }
    }

    /// Zeroes the outstanding balance, leaving owner and timestamp
    /// unchanged; used by liquidation.
    pub fn zero_out(&mut self)
        ensures
            final(self).amount == 0,
            final(self).timestamp == old(self).timestamp,
            final(self).owner == old(self).owner,
    {
        self.amount = 0;
    }
}

} // verus!
