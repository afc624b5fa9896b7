//! What holds of withdrawals and their rolling limit, also where calls come in
//! between the steps of a withdrawal.

use vstd::prelude::*;

use crate::admin_log::{law_log_stays_complete, AdminActionType};
use crate::token_account::{TokenAccount, EPOCH_DURATION};
use crate::treasury::{TreasuryError, TreasuryState};
use crate::treasury_laws::{
    law_lock_is_released, law_reentry_is_refused, valid_account, valid_treasury, TreasuryCall,
};
use crate::types::Address;

verus! {

/// What the rolling limit of a token goes by: its cap, the beginning of the
/// epoch, and what was withdrawn in it.
pub open spec fn quota(account: TokenAccount) -> (i128, Option<u64>, i128) {
    (account.cap, account.epoch_start, account.epoch_withdrawn)
}

/// Whether a call leaves the cap of `token` alone.
pub open spec fn keeps_cap(call: TreasuryCall, token: Address) -> bool {
    call matches TreasuryCall::ExecuteWithdrawalCap { token: capped, .. } ==> capped != token
}

/// Whether all calls of a series leave the cap of `token` alone.
pub open spec fn all_keep_cap(calls: Seq<TreasuryCall>, token: Address) -> bool {
    forall|i: int| 0 <= i < calls.len() ==> keeps_cap(#[trigger] calls[i], token)
}

/// The state after a series of calls; those that are refused change nothing.
pub open spec fn after_calls(s: TreasuryState, calls: Seq<TreasuryCall>) -> TreasuryState
    decreases calls.len(),
{
    if calls.len() == 0 {
        s
    } else {
        let t = after_calls(s, calls.drop_last());
        match calls.last().outcome(t) {
            Ok(next) => next,
            Err(_) => t,
        }
    }
}

/// Something done with the treasury from outside: a call that nothing comes
/// between, or a withdrawal in its steps. During a withdrawal the token is asked
/// for the balance and then makes the transfer; `at_balance` and `at_transfer` are
/// the calls that come in meanwhile.
pub enum TreasuryRun {
    Call { call: TreasuryCall },
    Withdraw {
        now: u64,
        paused: bool,
        admin: Address,
        token: Address,
        amount: i128,
        balance: i128,
        at_balance: Seq<TreasuryCall>,
        at_transfer: Seq<TreasuryCall>,
    },
    EmergencyWithdraw {
        now: u64,
        admin: Address,
        token: Address,
        balance: i128,
        at_balance: Seq<TreasuryCall>,
        at_transfer: Seq<TreasuryCall>,
    },
}

impl TreasuryRun {
    /// What comes of it. A run that is refused at any of its steps is undone as a
    /// whole.
    pub open spec fn outcome(self, s: TreasuryState) -> Result<TreasuryState, TreasuryError> {
        match self {
            TreasuryRun::Call { call } => call.outcome(s),
            TreasuryRun::Withdraw {
                now,
                paused,
                admin,
                token,
                amount,
                balance,
                at_balance,
                at_transfer,
            } => match s.withdrawal_begun(now, paused, admin, token, amount) {
                Err(e) => Err(e),
                Ok(begun) => {
                    let asked = after_calls(begun, at_balance);
                    if balance < amount {
                        Err(TreasuryError::InsufficientPoolBalance)
                    } else {
                        let booked = asked.withdrawal_recorded(token, amount);
                        let paid = after_calls(booked, at_transfer);
                        Ok(paid.withdrawal_finished(now, admin, token, amount))
                    }
                },
            },
            TreasuryRun::EmergencyWithdraw {
                now,
                admin,
                token,
                balance,
                at_balance,
                at_transfer,
            } => match s.drain_begun(admin, token) {
                Err(e) => Err(e),
                Ok(begun) => {
                    let paid = after_calls(after_calls(begun, at_balance), at_transfer);
                    Ok(paid.drain_finished(now, admin, token, balance))
                },
            },
        }
    }

    /// What the run withdraws of `token` if it succeeds.
    pub open spec fn withdraws(self, token: Address) -> int {
        match self {
            TreasuryRun::Call {
                call: TreasuryCall::Withdraw { token: paid, amount, .. },
            } if paid == token => amount as int,
            TreasuryRun::Withdraw { token: paid, amount, .. } if paid == token => amount as int,
            _ => 0,
        }
    }

    /// Whether the run leaves the cap of `token` alone and, if it withdraws the
    /// token, falls in the epoch that began at `start`.
    pub open spec fn within_epoch(self, token: Address, start: u64) -> bool {
        match self {
            TreasuryRun::Call { call } => keeps_cap(call, token) && (
            call matches TreasuryCall::Withdraw { token: paid, now, .. } ==> paid == token ==> now
                - start < EPOCH_DURATION),
            TreasuryRun::Withdraw { token: paid, now, at_balance, at_transfer, .. } => {
                &&& all_keep_cap(at_balance, token)
                &&& all_keep_cap(at_transfer, token)
                &&& paid == token ==> now - start < EPOCH_DURATION
            },
            TreasuryRun::EmergencyWithdraw { at_balance, at_transfer, .. } => {
                &&& all_keep_cap(at_balance, token)
                &&& all_keep_cap(at_transfer, token)
            },
        }
    }
}

/// A call that comes in between the steps of a withdrawal leaves the quota of a
/// token as it is, unless it puts a cap of the token in force. The lock stays
/// held.
pub proof fn law_calls_between_steps_keep_quota(
    s: TreasuryState,
    call: TreasuryCall,
    token: Address,
)
    requires
        s.locked,
        keeps_cap(call, token),
    ensures
        call.outcome(s) matches Ok(next) ==> {
            &&& next.locked
            &&& next.accounts[token].cap == s.accounts[token].cap
            &&& next.accounts[token].epoch_start == s.accounts[token].epoch_start
            &&& next.accounts[token].epoch_withdrawn == s.accounts[token].epoch_withdrawn
        },
{
}

/// However many calls come in between the steps of a withdrawal, the lock stays
/// held, and the quota of a token whose cap they leave alone stays as it is.
pub proof fn law_lock_outlasts_calls_between_steps(
    s: TreasuryState,
    calls: Seq<TreasuryCall>,
    token: Address,
)
    requires
        s.locked,
    ensures
        after_calls(s, calls).locked,
        all_keep_cap(calls, token) ==> quota(after_calls(s, calls).accounts[token]) == quota(
            s.accounts[token],
        ),
    decreases calls.len(),
{
    if calls.len() > 0 {
        let rest = calls.drop_last();
        law_lock_outlasts_calls_between_steps(s, rest, token);
        let t = after_calls(s, rest);
        law_reentry_is_refused(t, calls.last());
        if all_keep_cap(calls, token) {
            assert forall|i: int| 0 <= i < rest.len() implies keeps_cap(
                #[trigger] rest[i],
                token,
            ) by {
                assert(rest[i] == calls[i]);
            }
            assert(keeps_cap(calls[calls.len() - 1], token));
            law_calls_between_steps_keep_quota(t, calls.last(), token);
        }
    }
}

/// The lock is free after every run that found it free, whatever calls came in
/// between its steps, and until its last step no withdrawal of either kind gets
/// through.
pub proof fn law_lock_is_released_after_steps(s: TreasuryState, run: TreasuryRun, other: TreasuryCall)
    requires
        !s.locked,
    ensures
        run.outcome(s) matches Ok(next) ==> !next.locked,
        run matches TreasuryRun::Withdraw {
            now,
            paused,
            admin,
            token,
            amount,
            at_balance,
            at_transfer,
            ..
        } ==> (s.withdrawal_begun(now, paused, admin, token, amount) matches Ok(begun) ==> {
            let asked = after_calls(begun, at_balance);
            let paid = after_calls(asked.withdrawal_recorded(token, amount), at_transfer);
            &&& begun.locked && asked.locked && paid.locked
            &&& other is Withdraw || other is EmergencyWithdraw ==> other.outcome(asked) is Err
                && other.outcome(paid) is Err
        }),
        run matches TreasuryRun::EmergencyWithdraw {
            admin,
            token,
            at_balance,
            at_transfer,
            ..
        } ==> (s.drain_begun(admin, token) matches Ok(begun) ==> {
            let asked = after_calls(begun, at_balance);
            let paid = after_calls(asked, at_transfer);
            &&& begun.locked && asked.locked && paid.locked
            &&& other is Withdraw || other is EmergencyWithdraw ==> other.outcome(asked) is Err
                && other.outcome(paid) is Err
        }),
{
    match run {
        TreasuryRun::Call { call } => {
            law_lock_is_released(s, call);
        },
        TreasuryRun::Withdraw {
            now,
            paused,
            admin,
            token,
            amount,
            at_balance,
            at_transfer,
            ..
        } => {
            if let Ok(begun) = s.withdrawal_begun(now, paused, admin, token, amount) {
                let asked = after_calls(begun, at_balance);
                let booked = asked.withdrawal_recorded(token, amount);
                law_lock_outlasts_calls_between_steps(begun, at_balance, token);
                law_lock_outlasts_calls_between_steps(booked, at_transfer, token);
                law_reentry_is_refused(asked, other);
                law_reentry_is_refused(
                    after_calls(booked, at_transfer),
                    other,
                );
            }
        },
        TreasuryRun::EmergencyWithdraw { admin, token, at_balance, at_transfer, .. } => {
            if let Ok(begun) = s.drain_begun(admin, token) {
                let asked = after_calls(begun, at_balance);
                law_lock_outlasts_calls_between_steps(begun, at_balance, token);
                law_lock_outlasts_calls_between_steps(asked, at_transfer, token);
                law_reentry_is_refused(asked, other);
                law_reentry_is_refused(
                    after_calls(asked, at_transfer),
                    other,
                );
            }
        },
    }
}

/// A withdrawal in steps is the withdrawal in one where no calls come in. Where
/// calls come in, it is granted or refused alike, and what it does to the quota
/// of a token whose cap they leave alone is the same.
pub proof fn law_steps_make_the_withdrawal(
    s: TreasuryState,
    now: u64,
    paused: bool,
    admin: Address,
    token: Address,
    amount: i128,
    balance: i128,
    at_balance: Seq<TreasuryCall>,
    at_transfer: Seq<TreasuryCall>,
    subject: Address,
)
    ensures
        ({
            let run = TreasuryRun::Withdraw {
                now,
                paused,
                admin,
                token,
                amount,
                balance,
                at_balance,
                at_transfer,
            };
            let at_once = s.withdrawn(now, paused, admin, token, amount, balance);
            &&& at_balance.len() == 0 && at_transfer.len() == 0 ==> run.outcome(s) == at_once
            &&& match (run.outcome(s), at_once) {
                (Ok(next), Ok(plain)) => all_keep_cap(at_balance, subject) && all_keep_cap(
                    at_transfer,
                    subject,
                ) ==> quota(next.accounts[subject]) == quota(plain.accounts[subject]),
                (Err(e), Err(f)) => e == f,
                _ => false,
            }
        }),
        ({
            let run = TreasuryRun::EmergencyWithdraw {
                now,
                admin,
                token,
                balance,
                at_balance,
                at_transfer,
            };
            let at_once = s.drained(now, admin, token, balance);
            &&& at_balance.len() == 0 && at_transfer.len() == 0 ==> run.outcome(s) == at_once
            &&& match (run.outcome(s), at_once) {
                (Ok(next), Ok(plain)) => all_keep_cap(at_balance, subject) && all_keep_cap(
                    at_transfer,
                    subject,
                ) ==> quota(next.accounts[subject]) == quota(plain.accounts[subject]),
                (Err(e), Err(f)) => e == f,
                _ => false,
            }
        }),
{
    if let Ok(begun) = s.withdrawal_begun(now, paused, admin, token, amount) {
        law_lock_outlasts_calls_between_steps(begun, at_balance, subject);
        let booked = after_calls(begun, at_balance).withdrawal_recorded(token, amount);
        law_lock_outlasts_calls_between_steps(booked, at_transfer, subject);
    }
    if let Ok(begun) = s.drain_begun(admin, token) {
        law_lock_outlasts_calls_between_steps(begun, at_balance, subject);
        law_lock_outlasts_calls_between_steps(
            after_calls(begun, at_balance),
            at_transfer,
            subject,
        );
    }
}

/// Every step of a withdrawal keeps the treasury valid.
pub proof fn law_steps_keep_treasury_valid(
    s: TreasuryState,
    now: u64,
    paused: bool,
    admin: Address,
    token: Address,
    amount: i128,
    balance: i128,
)
    requires
        valid_treasury(s),
        s.log.total < u64::MAX,
        amount > 0,
    ensures
        s.withdrawal_begun(now, paused, admin, token, amount) matches Ok(next) ==> valid_treasury(
            next,
        ),
        valid_treasury(s.withdrawal_recorded(token, amount)),
        valid_treasury(s.withdrawal_finished(now, admin, token, amount)),
        s.drain_begun(admin, token) matches Ok(next) ==> valid_treasury(next),
        valid_treasury(s.drain_finished(now, admin, token, balance)),
{
    assert(valid_account(s.accounts[token]));
    law_log_stays_complete(s.log, now, admin, AdminActionType::Withdraw);
    law_log_stays_complete(s.log, now, admin, AdminActionType::EmergencyWithdraw);
}

/// A token for which no epoch has begun has nothing counted against its cap.
pub proof fn law_nothing_counted_before_first_epoch(
    s: TreasuryState,
    call: TreasuryCall,
    token: Address,
)
    requires
        s.accounts[token].epoch_start is None ==> s.accounts[token].epoch_withdrawn == 0,
    ensures
        TreasuryState::blank().accounts[token].epoch_withdrawn == 0,
        call.outcome(s) matches Ok(next) ==> next.accounts[token].epoch_start is None
            ==> next.accounts[token].epoch_withdrawn == 0,
{
}

/// The first withdrawal under a cap begins an epoch, and so does the first one
/// that comes after the end of an epoch: what was withdrawn before does not count.
pub proof fn law_epoch_begins_anew(
    s: TreasuryState,
    now: u64,
    paused: bool,
    admin: Address,
    token: Address,
    amount: i128,
    balance: i128,
)
    requires
        s.accounts[token].cap > 0,
        match s.accounts[token].epoch_start {
            Some(start) => now - start >= EPOCH_DURATION,
            None => s.accounts[token].epoch_withdrawn == 0,
        },
    ensures
        s.withdrawn(now, paused, admin, token, amount, balance) matches Ok(next) ==> next.accounts[
            token
        ].epoch_start == Some(now) && next.accounts[token].epoch_withdrawn == amount,
        s.withdrawn(now, paused, admin, token, amount, balance) == Err::<
            TreasuryState,
            TreasuryError,
        >(TreasuryError::WithdrawalRateLimitExceeded) ==> amount > s.accounts[token].cap,
{
}

/// The state after a series of runs; those that are refused change nothing.
pub open spec fn after_runs(s: TreasuryState, runs: Seq<TreasuryRun>) -> TreasuryState
    decreases runs.len(),
{
    if runs.len() == 0 {
        s
    } else {
        let t = after_runs(s, runs.drop_last());
        match runs.last().outcome(t) {
            Ok(next) => next,
            Err(_) => t,
        }
    }
}

/// What the withdrawals of `token` in a series of runs pay out.
pub open spec fn paid_out(s: TreasuryState, token: Address, runs: Seq<TreasuryRun>) -> int
    decreases runs.len(),
{
    if runs.len() == 0 {
        0
    } else {
        let t = after_runs(s, runs.drop_last());
        paid_out(s, token, runs.drop_last()) + if runs.last().outcome(t) is Ok {
            runs.last().withdraws(token)
        } else {
            0
        }
    }
}

/// A run within an epoch adds what it withdraws to what is counted, and is granted
/// only if the cap covers both, whatever calls come in between its steps.
pub proof fn law_run_is_counted(s: TreasuryState, run: TreasuryRun, token: Address, start: u64)
    requires
        s.accounts[token].cap > 0,
        s.accounts[token].epoch_start == Some(start),
        run.within_epoch(token, start),
    ensures
        run.outcome(s) matches Ok(next) ==> {
            let before = s.accounts[token];
            let after = next.accounts[token];
            &&& 0 <= run.withdraws(token)
            &&& run.withdraws(token) > 0 ==> before.epoch_withdrawn + run.withdraws(token)
                <= before.cap
            &&& after.cap == before.cap
            &&& after.epoch_start == before.epoch_start
            &&& after.epoch_withdrawn == before.epoch_withdrawn + run.withdraws(token)
        },
{
    match run {
        TreasuryRun::Call { call } => {},
        TreasuryRun::Withdraw {
            now,
            paused,
            admin,
            token: paid,
            amount,
            balance,
            at_balance,
            at_transfer,
        } => {
            law_steps_make_the_withdrawal(
                s,
                now,
                paused,
                admin,
                paid,
                amount,
                balance,
                at_balance,
                at_transfer,
                token,
            );
        },
        TreasuryRun::EmergencyWithdraw { now, admin, token: paid, balance, at_balance, at_transfer } => {
            law_steps_make_the_withdrawal(
                s,
                now,
                false,
                admin,
                paid,
                1,
                balance,
                at_balance,
                at_transfer,
                token,
            );
        },
    }
}

/// Within an epoch withdrawals pay out no more than the cap, what was paid out in
/// it before included, whatever is done with the treasury as long as the cap
/// stands: also where calls come in between the steps of a withdrawal.
pub proof fn law_epoch_total_within_cap(
    s: TreasuryState,
    token: Address,
    start: u64,
    runs: Seq<TreasuryRun>,
)
    requires
        s.accounts[token].cap > 0,
        s.accounts[token].epoch_start == Some(start),
        forall|i: int| 0 <= i < runs.len() ==> (#[trigger] runs[i]).within_epoch(token, start),
    ensures
        0 <= paid_out(s, token, runs),
        paid_out(s, token, runs) > 0 ==> s.accounts[token].epoch_withdrawn + paid_out(
            s,
            token,
            runs,
        ) <= s.accounts[token].cap,
        ({
            let end = after_runs(s, runs).accounts[token];
            &&& end.epoch_withdrawn == s.accounts[token].epoch_withdrawn + paid_out(
                s,
                token,
                runs,
            )
            &&& end.epoch_start == Some(start)
            &&& end.cap == s.accounts[token].cap
        }),
    decreases runs.len(),
{
    if runs.len() > 0 {
        let rest = runs.drop_last();
        assert forall|i: int| 0 <= i < rest.len() implies (#[trigger] rest[i]).within_epoch(
            token,
            start,
        ) by {
            assert(rest[i] == runs[i]);
        }
        law_epoch_total_within_cap(s, token, start, rest);
        assert(runs[runs.len() - 1].within_epoch(token, start));
        law_run_is_counted(after_runs(s, rest), runs.last(), token, start);
    }
}

} // verus!
