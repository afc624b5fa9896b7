//! What holds of the treasury as a whole.

use vstd::prelude::*;

use crate::admin_log::{law_log_stays_complete, AdminActionType};
use crate::token_account::TokenAccount;
use crate::treasury::{drain_transfer, TreasuryError, TreasuryEvent, TreasuryState};
use crate::types::Address;
use crate::validation::{MAX_FEE_BPS, UPGRADE_TIMELOCK_DELAY};

verus! {

/// No two errors of the treasury share a code, so a client that sees a code
/// knows the error.
pub proof fn law_treasury_codes_are_unique(a: TreasuryError, b: TreasuryError)
    ensures
        a.spec_code() == b.spec_code() <==> a == b,
{
}

/// One call that changes the treasury.
pub enum TreasuryCall {
    Initialize { this: Address, admin: Address, fee_bps: u32 },
    SetAccessControl { now: u64, admin: Address, access_control: Address },
    SetFeeBps { now: u64, admin: Address, fee_bps: u32 },
    WhitelistToken { now: u64, admin: Address, token: Address },
    CollectFee { this: Address, token: Address, amount: i128 },
    Withdraw { now: u64, paused: bool, admin: Address, token: Address, amount: i128, balance: i128 },
    EmergencyWithdraw { now: u64, admin: Address, token: Address, balance: i128 },
    DeclareEmergency { now: u64, admin: Address },
    RevokeEmergency { now: u64, admin: Address },
    ProposeWithdrawalCap { now: u64, admin: Address, token: Address, new_cap: i128 },
    ExecuteWithdrawalCap { now: u64, admin: Address, token: Address },
    ProposeUpgrade { now: u64, admin: Address, wasm_hash: [u8; 32] },
    ExecuteUpgrade { now: u64, admin: Address },
}

impl TreasuryCall {
    /// What the call does to the treasury.
    pub open spec fn outcome(self, s: TreasuryState) -> Result<TreasuryState, TreasuryError> {
        match self {
            TreasuryCall::Initialize { this, admin, fee_bps } => s.initialized(
                this,
                admin,
                fee_bps,
            ),
            TreasuryCall::SetAccessControl { now, admin, access_control } => s.access_control_set(
                now,
                admin,
                access_control,
            ),
            TreasuryCall::SetFeeBps { now, admin, fee_bps } => s.fee_set(now, admin, fee_bps),
            TreasuryCall::WhitelistToken { now, admin, token } => s.token_whitelisted(
                now,
                admin,
                token,
            ),
            TreasuryCall::CollectFee { this, token, amount } => s.fee_collected(
                this,
                token,
                amount,
            ),
            TreasuryCall::Withdraw { now, paused, admin, token, amount, balance } => s.withdrawn(
                now,
                paused,
                admin,
                token,
                amount,
                balance,
            ),
            TreasuryCall::EmergencyWithdraw { now, admin, token, balance } => s.drained(
                now,
                admin,
                token,
                balance,
            ),
            TreasuryCall::DeclareEmergency { now, admin } => s.emergency_begun(now, admin),
            TreasuryCall::RevokeEmergency { now, admin } => s.emergency_ended(now, admin),
            TreasuryCall::ProposeWithdrawalCap { now, admin, token, new_cap } => s.cap_proposed(
                now,
                admin,
                token,
                new_cap,
            ),
            TreasuryCall::ExecuteWithdrawalCap { now, admin, token } => s.cap_executed(
                now,
                admin,
                token,
            ),
            TreasuryCall::ProposeUpgrade { now, admin, wasm_hash } => s.upgrade_proposed(
                now,
                admin,
                wasm_hash,
            ),
            TreasuryCall::ExecuteUpgrade { now, admin } => s.upgrade_executed(now, admin),
        }
    }

    /// Who acts as the admin in the call, when, and what it is logged as; `None`
    /// for a call that needs no admin.
    pub open spec fn admin_action(self) -> Option<(Address, u64, AdminActionType)> {
        match self {
            TreasuryCall::Initialize { .. } => None,
            TreasuryCall::SetAccessControl { now, admin, .. } => Some(
                (admin, now, AdminActionType::SetAccessControl),
            ),
            TreasuryCall::SetFeeBps { now, admin, .. } => Some(
                (admin, now, AdminActionType::SetFeeBps),
            ),
            TreasuryCall::WhitelistToken { now, admin, .. } => Some(
                (admin, now, AdminActionType::WhitelistToken),
            ),
            TreasuryCall::CollectFee { .. } => None,
            TreasuryCall::Withdraw { now, admin, .. } => Some(
                (admin, now, AdminActionType::Withdraw),
            ),
            TreasuryCall::EmergencyWithdraw { now, admin, .. } => Some(
                (admin, now, AdminActionType::EmergencyWithdraw),
            ),
            TreasuryCall::DeclareEmergency { now, admin } => Some(
                (admin, now, AdminActionType::DeclareEmergency),
            ),
            TreasuryCall::RevokeEmergency { now, admin } => Some(
                (admin, now, AdminActionType::RevokeEmergency),
            ),
            TreasuryCall::ProposeWithdrawalCap { now, admin, .. } => Some(
                (admin, now, AdminActionType::ProposeWithdrawalCap),
            ),
            TreasuryCall::ExecuteWithdrawalCap { now, admin, .. } => Some(
                (admin, now, AdminActionType::ExecuteWithdrawalCap),
            ),
            TreasuryCall::ProposeUpgrade { now, admin, .. } => Some(
                (admin, now, AdminActionType::TreasuryProposeUpgrade),
            ),
            TreasuryCall::ExecuteUpgrade { now, admin } => Some(
                (admin, now, AdminActionType::TreasuryExecuteUpgrade),
            ),
        }
    }

    /// The token that the call is about, if it is about one.
    pub open spec fn subject(self) -> Option<Address> {
        match self {
            TreasuryCall::WhitelistToken { token, .. } => Some(token),
            TreasuryCall::CollectFee { token, .. } => Some(token),
            TreasuryCall::Withdraw { token, .. } => Some(token),
            TreasuryCall::EmergencyWithdraw { token, .. } => Some(token),
            TreasuryCall::ProposeWithdrawalCap { token, .. } => Some(token),
            TreasuryCall::ExecuteWithdrawalCap { token, .. } => Some(token),
            _ => None,
        }
    }
}

/// Whether the record of a token is one that the treasury can come to.
pub open spec fn valid_account(account: TokenAccount) -> bool {
    &&& account.cap >= 0
    &&& account.cap_proposal matches Some(p) ==> p.new_cap >= 0
    &&& account.epoch_withdrawn >= 0
}

/// Whether the treasury is in a state that it can come to.
pub open spec fn valid_treasury(s: TreasuryState) -> bool {
    &&& s.fee() <= MAX_FEE_BPS
    &&& s.log.complete()
    &&& forall|token: Address| #[trigger] s.accounts.contains_key(token)
    &&& forall|token: Address| valid_account(#[trigger] s.accounts[token])
}

/// The fee is always between 0 and 100 %, every cap and every epoch total is at
/// least 0, and the log of admin actions is complete: at first, and after every
/// call.
pub proof fn law_treasury_stays_valid(s: TreasuryState, call: TreasuryCall)
    requires
        valid_treasury(s),
        s.log.total < u64::MAX,
    ensures
        valid_treasury(TreasuryState::blank()),
        call.outcome(s) matches Ok(next) ==> valid_treasury(next),
{
    match call.admin_action() {
        Some((admin, now, action)) => {
            law_log_stays_complete(s.log, now, admin, action);
        },
        None => {},
    }
}

/// A treasury is initialized once.
pub proof fn law_initialized_once(
    s: TreasuryState,
    this: Address,
    admin: Address,
    fee_bps: u32,
    other: Address,
    other_bps: u32,
)
    ensures
        s.initialized(this, admin, fee_bps) matches Ok(next) ==> next.admin == Some(admin)
            && next.fee() == fee_bps && next.initialized(this, other, other_bps) == Err::<
            TreasuryState,
            TreasuryError,
        >(TreasuryError::AlreadyInitialized),
{
}

/// The admin never changes once there is one.
pub proof fn law_admin_is_fixed(s: TreasuryState, call: TreasuryCall)
    requires
        s.admin is Some,
    ensures
        call.outcome(s) matches Ok(next) ==> next.admin == s.admin,
{
}

/// Whoever is not the admin is refused every admin action.
pub proof fn law_only_admin_acts(s: TreasuryState, call: TreasuryCall)
    requires
        call.admin_action() matches Some((caller, _, _)) && s.admin != Some(caller),
    ensures
        call.outcome(s) == Err::<TreasuryState, TreasuryError>(
            if s.admin is None {
                TreasuryError::NotInitialized
            } else {
                TreasuryError::NotAdmin
            },
        ),
{
}

/// Every admin action that succeeds is logged and reported, once; nothing else is
/// logged.
pub proof fn law_admin_actions_are_logged(s: TreasuryState, call: TreasuryCall)
    ensures
        call.outcome(s) matches Ok(next) ==> match call.admin_action() {
            Some((admin, now, action)) => {
                let entry = s.log.entry(now, admin, action);
                &&& next.log == s.log.appended(entry)
                &&& next.events.len() > 0
                &&& next.events.last() == (TreasuryEvent::AdminActionAudited { entry })
            },
            None => next.log == s.log,
        },
{
}

/// Events are only ever added.
pub proof fn law_events_are_kept(s: TreasuryState, call: TreasuryCall)
    ensures
        call.outcome(s) matches Ok(next) ==> s.events.is_prefix_of(next.events),
{
}

/// A fee that was set is the fee in force, and the report of the change names the
/// fee that was in force before.
pub proof fn law_fee_is_read_back(s: TreasuryState, now: u64, admin: Address, fee_bps: u32)
    ensures
        s.fee_set(now, admin, fee_bps) matches Ok(next) ==> next.fee() == fee_bps
            && next.events.contains(
            TreasuryEvent::FeeRateUpdated { admin, old_bps: s.fee(), new_bps: fee_bps },
        ),
        s.admin == Some(admin) ==> (s.fee_set(now, admin, fee_bps) is Ok <==> fee_bps
            <= MAX_FEE_BPS),
{
    if let Ok(next) = s.fee_set(now, admin, fee_bps) {
        assert(next.events[s.events.len() as int] == (TreasuryEvent::FeeRateUpdated {
            admin,
            old_bps: s.fee(),
            new_bps: fee_bps,
        }));
    }
}

/// To whitelist a token twice is to whitelist it once: the second call succeeds
/// and leaves every record as it is.
pub proof fn law_whitelisting_is_idempotent(
    s: TreasuryState,
    now: u64,
    later: u64,
    admin: Address,
    token: Address,
)
    requires
        s.admin == Some(admin),
        s.accounts.contains_key(token),
    ensures
        s.token_whitelisted(now, admin, token) matches Ok(next) && next.accounts[token].whitelisted
            && (next.token_whitelisted(later, admin, token) matches Ok(again) && again.accounts
            == next.accounts),
{
    let next = s.token_whitelisted(now, admin, token)->Ok_0;
    let again = next.token_whitelisted(later, admin, token)->Ok_0;
    assert(again.accounts =~= next.accounts);
}

/// A token that is not whitelisted can be neither collected nor withdrawn.
pub proof fn law_unlisted_tokens_are_refused(s: TreasuryState, call: TreasuryCall, token: Address)
    requires
        !s.accounts[token].whitelisted,
        call.subject() == Some(token),
        call is CollectFee || call is Withdraw || call is EmergencyWithdraw,
    ensures
        call.outcome(s) is Err,
{
}

/// Fees that are collected one after the other add up.
pub proof fn law_collected_fees_add_up(
    s: TreasuryState,
    this: Address,
    token: Address,
    first: i128,
    second: i128,
)
    requires
        s.accounts[token].whitelisted,
        first > 0,
        second > 0,
        s.accounts[token].collected_total() + first + second <= i128::MAX,
    ensures
        s.fee_collected(this, token, first) matches Ok(next) && (next.fee_collected(
            this,
            token,
            second,
        ) matches Ok(last) && last.accounts[token].collected_total()
            == s.accounts[token].collected_total() + first + second),
{
}

/// A withdrawal takes its amount off the ledger, and an emergency withdrawal
/// leaves the ledger as it is.
pub proof fn law_withdrawal_is_taken_off_ledger(
    s: TreasuryState,
    now: u64,
    paused: bool,
    admin: Address,
    token: Address,
    amount: i128,
    balance: i128,
)
    requires
        s.accounts[token].collected is Some,
        s.accounts[token].collected_total() - amount >= i128::MIN,
    ensures
        s.withdrawn(now, paused, admin, token, amount, balance) matches Ok(next) ==> next.accounts[
            token
        ].collected_total() == s.accounts[token].collected_total() - amount,
        s.drained(now, admin, token, balance) matches Ok(next) ==> next.accounts == s.accounts,
{
}

/// Withdrawals succeed only if the balance covers the amount, whatever the ledger
/// of collected fees says: with any other ledger the outcome is the same.
pub proof fn law_balance_gates_withdrawals(
    s: TreasuryState,
    now: u64,
    paused: bool,
    admin: Address,
    token: Address,
    amount: i128,
    balance: i128,
    ledger: Option<i128>,
)
    ensures
        s.withdrawn(now, paused, admin, token, amount, balance) is Ok ==> 0 < amount <= balance,
        ({
            let other = s.with_account(
                token,
                TokenAccount { collected: ledger, ..s.accounts[token] },
            );
            match (
                s.withdrawn(now, paused, admin, token, amount, balance),
                other.withdrawn(now, paused, admin, token, amount, balance),
            ) {
                (Ok(_), Ok(_)) => true,
                (Err(e), Err(f)) => e == f,
                _ => false,
            }
        }),
{
}

/// An emergency withdrawal never fails for want of a balance: what decides is
/// the same for every balance, and nothing is transferred where there is nothing.
pub proof fn law_drain_accepts_any_balance(
    s: TreasuryState,
    now: u64,
    admin: Address,
    token: Address,
    recipient: Address,
    balance: i128,
)
    ensures
        s.drained(now, admin, token, balance) is Ok <==> s.drain_begun(admin, token) is Ok,
        drain_transfer(token, recipient, balance) is None <==> balance <= 0,
        drain_transfer(token, recipient, balance) matches Some(t) ==> t.amount == balance && t.token
            == token && t.recipient == recipient,
{
}

/// The lock is free again after every call that found it free. It is held
/// between the steps of a withdrawal.
pub proof fn law_lock_is_released(s: TreasuryState, call: TreasuryCall)
    requires
        !s.locked,
    ensures
        call.outcome(s) matches Ok(next) ==> !next.locked,
        call matches TreasuryCall::Withdraw { now, paused, admin, token, amount, .. } ==> (
        s.withdrawal_begun(now, paused, admin, token, amount) matches Ok(begun) ==> begun.locked),
        call matches TreasuryCall::EmergencyWithdraw { admin, token, .. } ==> (s.drain_begun(
            admin,
            token,
        ) matches Ok(begun) ==> begun.locked),
{
}

/// While the lock is held no withdrawal of either kind goes through, and no other
/// call frees it.
pub proof fn law_reentry_is_refused(s: TreasuryState, call: TreasuryCall)
    requires
        s.locked,
    ensures
        call is Withdraw || call is EmergencyWithdraw ==> call.outcome(s) is Err,
        call.outcome(s) matches Ok(next) ==> next.locked,
{
}

/// A withdrawal that the lock alone stands against is refused as a reentry.
pub proof fn law_reentry_is_named(
    s: TreasuryState,
    now: u64,
    paused: bool,
    admin: Address,
    token: Address,
    amount: i128,
    balance: i128,
)
    requires
        s.locked,
    ensures
        ({
            let free = TreasuryState { locked: false, ..s };
            &&& free.withdrawn(now, paused, admin, token, amount, balance) is Ok ==> s.withdrawn(
                now,
                paused,
                admin,
                token,
                amount,
                balance,
            ) == Err::<TreasuryState, TreasuryError>(TreasuryError::Reentrancy)
            &&& free.drained(now, admin, token, balance) is Ok ==> s.drained(
                now,
                admin,
                token,
                balance,
            ) == Err::<TreasuryState, TreasuryError>(TreasuryError::Reentrancy)
        }),
{
}

/// A pause blocks withdrawals where access control is set up; where it is not, a
/// pause does not matter.
pub proof fn law_pause_blocks_withdrawals(
    s: TreasuryState,
    now: u64,
    admin: Address,
    token: Address,
    amount: i128,
    balance: i128,
)
    ensures
        s.access_control is Some && s.admin == Some(admin) ==> s.withdrawn(
            now,
            true,
            admin,
            token,
            amount,
            balance,
        ) == Err::<TreasuryState, TreasuryError>(TreasuryError::ProtocolPaused),
        s.access_control is None ==> s.withdrawn(now, true, admin, token, amount, balance)
            == s.withdrawn(now, false, admin, token, amount, balance),
{
}

/// Funds can be drained only while an emergency is declared, whether or not
/// access control, which knows of a pause, is set up.
pub proof fn law_emergency_gates_drain(
    s: TreasuryState,
    now: u64,
    later: u64,
    admin: Address,
    token: Address,
    balance: i128,
)
    requires
        s.admin == Some(admin),
        s.accounts[token].whitelisted,
        !s.locked,
    ensures
        s.drained(now, admin, token, balance) is Ok <==> s.emergency_declared,
        s.emergency_begun(now, admin) matches Ok(next) && next.drained(
            later,
            admin,
            token,
            balance,
        ) is Ok,
        s.emergency_ended(now, admin) matches Ok(next) && next.drained(
            later,
            admin,
            token,
            balance,
        ) == Err::<TreasuryState, TreasuryError>(TreasuryError::EmergencyNotDeclared),
{
}

/// An emergency is declared and revoked by the calls made for it alone.
pub proof fn law_emergency_is_deliberate(s: TreasuryState, call: TreasuryCall)
    ensures
        call.outcome(s) matches Ok(next) ==> next.emergency_declared == if call
            is DeclareEmergency {
            true
        } else if call is RevokeEmergency {
            false
        } else {
            s.emergency_declared
        },
{
}

/// A call about one token changes nothing of another, and is not influenced by
/// it.
#[verifier::rlimit(60)]
pub proof fn law_tokens_are_independent(
    s: TreasuryState,
    call: TreasuryCall,
    other: Address,
    account: TokenAccount,
)
    requires
        call.subject() != Some(other),
    ensures
        call.outcome(s) matches Ok(next) ==> next.accounts[other] == s.accounts[other],
        match (call.outcome(s), call.outcome(s.with_account(other, account))) {
            (Ok(next), Ok(alike)) => alike == next.with_account(other, account),
            (Err(e), Err(f)) => e == f,
            _ => false,
        },
{
    let changed = s.with_account(other, account);
    match call.subject() {
        Some(token) => {
            assert(changed.accounts[token] == s.accounts[token]);
            assert forall|x: TokenAccount| #[trigger]
                s.accounts.insert(token, x).insert(other, account) == s.accounts.insert(
                other,
                account,
            ).insert(token, x) by {
                assert(s.accounts.insert(token, x).insert(other, account) =~= s.accounts.insert(
                    other,
                    account,
                ).insert(token, x));
            }
        },
        None => {},
    }
}

/// The cap of a token changes only by a proposal whose timelock has elapsed, and
/// the proposal is used up by it.
pub proof fn law_cap_changes_after_timelock(s: TreasuryState, call: TreasuryCall, token: Address)
    ensures
        call.outcome(s) matches Ok(next) ==> next.accounts[token].cap != s.accounts[token].cap ==> (
        call matches TreasuryCall::ExecuteWithdrawalCap { now, token: t, .. } && t == token && (
        s.accounts[token].cap_proposal matches Some(p) && now >= p.proposed_at
            + UPGRADE_TIMELOCK_DELAY && next.accounts[token].cap == p.new_cap)
            && next.accounts[token].cap_proposal is None),
{
}

/// A cap that was proposed can be put in force from the end of the timelock on,
/// once.
pub proof fn law_proposed_cap_takes_effect(
    s: TreasuryState,
    now: u64,
    later: u64,
    admin: Address,
    token: Address,
    new_cap: i128,
)
    requires
        s.admin == Some(admin),
        new_cap >= 0,
    ensures
        s.cap_proposed(now, admin, token, new_cap) matches Ok(proposed) && proposed.accounts[
            token
        ].cap == s.accounts[token].cap && if later < now + UPGRADE_TIMELOCK_DELAY {
            proposed.cap_executed(later, admin, token) == Err::<TreasuryState, TreasuryError>(
                TreasuryError::WithdrawalCapTimelockNotElapsed,
            )
        } else {
            proposed.cap_executed(later, admin, token) matches Ok(done) && done.accounts[token].cap
                == new_cap && done.cap_executed(later, admin, token) == Err::<
                TreasuryState,
                TreasuryError,
            >(TreasuryError::NoCapChangeProposed)
        },
{
}

/// An upgrade that was proposed can be taken up from the end of the timelock on,
/// once.
pub proof fn law_proposed_upgrade_takes_effect(
    s: TreasuryState,
    now: u64,
    later: u64,
    admin: Address,
    wasm_hash: [u8; 32],
)
    requires
        s.admin == Some(admin),
    ensures
        s.upgrade_proposed(now, admin, wasm_hash) matches Ok(proposed) && (
        proposed.upgrade_proposal matches Some(p) && p.wasm_hash == wasm_hash) && if later < now
            + UPGRADE_TIMELOCK_DELAY {
            proposed.upgrade_executed(later, admin) == Err::<TreasuryState, TreasuryError>(
                TreasuryError::UpgradeTimelockNotElapsed,
            )
        } else {
            proposed.upgrade_executed(later, admin) matches Ok(done) && done.upgrade_executed(
                later,
                admin,
            ) == Err::<TreasuryState, TreasuryError>(TreasuryError::NoUpgradeProposed)
        },
{
}

/// Without a cap, which is how every token begins, no withdrawal is refused for
/// the rate limit.
pub proof fn law_no_cap_no_limit(
    s: TreasuryState,
    now: u64,
    paused: bool,
    admin: Address,
    token: Address,
    amount: i128,
    balance: i128,
)
    requires
        s.accounts[token].cap == 0,
    ensures
        TreasuryState::blank().accounts[token].cap == 0,
        s.withdrawn(now, paused, admin, token, amount, balance) matches Err(e) ==> e
            != TreasuryError::WithdrawalRateLimitExceeded && e != TreasuryError::ArithmeticOverflow,
{
}

/// The codes by which clients know the treasury's errors.
pub proof fn law_treasury_codes_name_errors(e: TreasuryError)
    ensures
        e.spec_code() == 1 <==> e == TreasuryError::AlreadyInitialized,
        e.spec_code() == 2 <==> e == TreasuryError::ArithmeticOverflow,
        e.spec_code() == 3 <==> e == TreasuryError::InsufficientPoolBalance,
        e.spec_code() == 4 <==> e == TreasuryError::InvalidAddress,
        e.spec_code() == 5 <==> e == TreasuryError::InvalidAmount,
        e.spec_code() == 6 <==> e == TreasuryError::InvalidFeeRate,
        e.spec_code() == 7 <==> e == TreasuryError::NoCapChangeProposed,
        e.spec_code() == 8 <==> e == TreasuryError::NoUpgradeProposed,
        e.spec_code() == 9 <==> e == TreasuryError::NotAdmin,
        e.spec_code() == 10 <==> e == TreasuryError::NotInitialized,
        e.spec_code() == 11 <==> e == TreasuryError::Reentrancy,
        e.spec_code() == 12 <==> e == TreasuryError::TokenNotWhitelisted,
        e.spec_code() == 13 <==> e == TreasuryError::UpgradeTimelockNotElapsed,
        e.spec_code() == 14 <==> e == TreasuryError::WithdrawalCapTimelockNotElapsed,
        e.spec_code() == 15 <==> e == TreasuryError::WithdrawalRateLimitExceeded,
        e.spec_code() == 16 <==> e == TreasuryError::ProtocolPaused,
        e.spec_code() == 17 <==> e == TreasuryError::EmergencyNotDeclared,
{
}

} // verus!
