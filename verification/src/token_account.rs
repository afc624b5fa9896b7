//! What the treasury keeps for each token: the ledger of collected fees and
//! the rolling limit on withdrawals.

use vstd::prelude::*;

verus! {

/// The length of a rate-limit epoch: 24 hours, in seconds.
pub const EPOCH_DURATION: u64 = 86_400;

/// A proposed withdrawal cap, and when it was proposed.
#[derive(Clone, Copy, Debug, PartialEq, Eq, Structural)]
pub struct CapProposal {
    pub new_cap: i128,
    pub proposed_at: u64,
}

/// The treasury's record of one token.
#[derive(Clone, Copy, Debug, PartialEq, Eq)]
pub struct TokenAccount {
    /// Whether fees may be collected and withdrawn in the token.
    pub whitelisted: bool,
    /// The fees collected less those withdrawn; for information only.
    pub collected: Option<i128>,
    /// The most that may be withdrawn within an epoch; 0 if there is no limit.
    pub cap: i128,
    pub cap_proposal: Option<CapProposal>,
    /// When the current epoch began.
    pub epoch_start: Option<u64>,
    /// What was withdrawn in the current epoch.
    pub epoch_withdrawn: i128,
}

/// Why a withdrawal is not within the limit.
#[derive(Clone, Copy, Debug, PartialEq, Eq, Structural)]
pub enum LimitError {
    /// The total does not fit in an `i128`.
    Overflow,
    /// The total is above the cap.
    Exceeded,
}

/// `x`, or the end of the range of `i128` that is nearest to it.
pub open spec fn saturated(x: int) -> i128 {
    if x < i128::MIN {
        i128::MIN
    } else if x > i128::MAX {
        i128::MAX
    } else {
        x as i128
    }
}

impl TokenAccount {
    /// The record of a token that nothing is known of.
    pub open spec fn blank() -> TokenAccount {
        TokenAccount {
            whitelisted: false,
            collected: None,
            cap: 0,
            cap_proposal: None,
            epoch_start: None,
            epoch_withdrawn: 0,
        }
    }

    /// The record of a token that nothing is known of.
    pub fn new() -> (r: TokenAccount)
        ensures
            r == TokenAccount::blank(),
    {
        TokenAccount {
            whitelisted: false,
            collected: None,
            cap: 0,
            cap_proposal: None,
            epoch_start: None,
            epoch_withdrawn: 0,
        }
    }

    /// Whether the epoch that the record speaks of is over at `now`.
    pub open spec fn epoch_over(self, now: u64) -> bool {
        self.epoch_start matches Some(start) && now - start >= EPOCH_DURATION
    }

    /// The record at the epoch of `now`: the first withdrawal under a cap
    /// begins an epoch, and one that comes after its end begins the next.
    pub open spec fn rolled(self, now: u64) -> TokenAccount {
        if self.cap == 0 {
            self
        } else if self.epoch_over(now) {
            TokenAccount { epoch_start: Some(now), epoch_withdrawn: 0, ..self }
        } else if self.epoch_start is None {
            TokenAccount { epoch_start: Some(now), ..self }
        } else {
            self
        }
    }

    /// Whether `amount` may be withdrawn at `now`.
    pub open spec fn limit_check(self, now: u64, amount: i128) -> Result<(), LimitError> {
        let total = self.rolled(now).epoch_withdrawn + amount;
        if self.cap == 0 {
            Ok(())
        } else if total < i128::MIN || total > i128::MAX {
            Err(LimitError::Overflow)
        } else if total > self.cap {
            Err(LimitError::Exceeded)
        } else {
            Ok(())
        }
    }

    /// The record once `amount` has been withdrawn in the current epoch.
    pub open spec fn debited(self, amount: i128) -> TokenAccount {
        TokenAccount {
            collected: match self.collected {
                Some(collected) => Some(saturated(collected - amount)),
                None => None,
            },
            epoch_withdrawn: if self.cap == 0 {
                self.epoch_withdrawn
            } else {
                saturated(self.epoch_withdrawn + amount)
            },
            ..self
        }
    }

    /// The fees collected, 0 if there never were any.
    pub open spec fn collected_total(self) -> i128 {
        match self.collected {
            Some(collected) => collected,
            None => 0,
        }
    }

    /// Begins a new epoch where one is due at `now`, then tells whether `amount`
    /// is within the limit.
    pub fn enforce_rate_limit(&mut self, now: u64, amount: i128) -> (r: Result<(), LimitError>)
        ensures
            *final(self) == old(self).rolled(now),
            r == old(self).limit_check(now, amount),
    {
        if self.cap == 0 {
            return Ok(());
        }
        match self.epoch_start {
            Some(start) => if now.saturating_sub(start) >= EPOCH_DURATION {
                self.epoch_start = Some(now);
                self.epoch_withdrawn = 0;
            },
            None => {
                self.epoch_start = Some(now);
            },
        }
        match self.epoch_withdrawn.checked_add(amount) {
            Some(new_total) => if new_total > self.cap {
                Err(LimitError::Exceeded)
            } else {
                Ok(())
            },
            None => Err(LimitError::Overflow),
        }
    }

    /// Takes a withdrawal off the ledger and counts it in the current epoch.
    pub fn record_withdrawal(&mut self, amount: i128)
        ensures
            *final(self) == old(self).debited(amount),
    {
        match self.collected {
            Some(collected) => {
                let lowest: i128 = if amount > 0 {
                    i128::MIN
                } else {
                    i128::MAX
                };
                self.collected = match collected.checked_sub(amount) {
                    Some(rest) => Some(rest),
                    None => Some(lowest),
                };
            },
            None => {},
        }
        if self.cap != 0 {
            let highest: i128 = if amount > 0 {
                i128::MAX
            } else {
                i128::MIN
            };
            self.epoch_withdrawn = match self.epoch_withdrawn.checked_add(amount) {
                Some(total) => total,
                None => highest,
            };
        }
    }
}

} // verus!
