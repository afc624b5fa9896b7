//! Checks on the arguments of calls.

use vstd::prelude::*;

use crate::errors::KoraError;
use crate::types::{Address, Key};

verus! {

/// The highest fee, in basis points: one hundred percent.
pub const MAX_FEE_BPS: u32 = 10_000;

/// The largest amount that one call may move: half of the `i128` range.
pub const MAX_AMOUNT: i128 = 0x3fff_ffff_ffff_ffff_ffff_ffff_ffff_ffff;

/// How long a proposed change must stand before it can be executed: 24 hours.
pub const UPGRADE_TIMELOCK_DELAY: u64 = 86_400;

/// Refuses a fee of more than one hundred percent.
pub fn require_valid_fee_bps(fee_bps: u32) -> (r: Result<(), KoraError>)
    ensures
        r == (if fee_bps <= MAX_FEE_BPS {
            Ok::<(), KoraError>(())
        } else {
            Err(KoraError::InvalidFeeRate)
        }),
{
    if fee_bps > MAX_FEE_BPS {
        return Err(KoraError::InvalidFeeRate);
    }
    Ok(())
}

/// Refuses an amount above `MAX_AMOUNT`.
pub fn require_within_max_amount(amount: i128) -> (r: Result<(), KoraError>)
    ensures
        r == (if amount <= MAX_AMOUNT {
            Ok::<(), KoraError>(())
        } else {
            Err(KoraError::InvalidAmount)
        }),
{
    if amount > MAX_AMOUNT {
        return Err(KoraError::InvalidAmount);
    }
    Ok(())
}

/// Refuses a negative amount.
pub fn require_non_negative_amount(amount: i128) -> (r: Result<(), KoraError>)
    ensures
        r == (if amount >= 0 {
            Ok::<(), KoraError>(())
        } else {
            Err(KoraError::InvalidAmount)
        }),
{
    if amount < 0 {
        return Err(KoraError::InvalidAmount);
    }
    Ok(())
}

/// Refuses the contract's own address `this`.
pub fn require_not_self(this: &Address, address: &Address) -> (r: Result<(), KoraError>)
    ensures
        r == (if *address != *this {
            Ok::<(), KoraError>(())
        } else {
            Err(KoraError::InvalidAddress)
        }),
{
    if address.same(this) {
        return Err(KoraError::InvalidAddress);
    }
    Ok(())
}

/// Whether a change proposed at `proposed_at` may be executed at `now`.
pub open spec fn timelock_elapsed(now: u64, proposed_at: u64) -> bool {
    now >= proposed_at + UPGRADE_TIMELOCK_DELAY
}

/// Whether a change proposed at `proposed_at` may be executed at `now`.
pub fn is_timelock_elapsed(now: u64, proposed_at: u64) -> (r: bool)
    ensures
        r == timelock_elapsed(now, proposed_at),
{
    now >= proposed_at && now - proposed_at >= UPGRADE_TIMELOCK_DELAY
}

/// A timelock elapses 24 hours after the proposal and stays so. Fees go up to one
/// hundred percent and amounts up to half of what an `i128` holds.
pub proof fn law_limits(now: u64, later: u64, proposed_at: u64)
    ensures
        timelock_elapsed(now, proposed_at) <==> now - proposed_at >= 86_400,
        timelock_elapsed(now, proposed_at) && later >= now ==> timelock_elapsed(later, proposed_at),
        MAX_FEE_BPS == 10_000,
        2 * MAX_AMOUNT + 1 == i128::MAX,
{
}

} // verus!
