//! What each call does to the treasury, field by field: when it is granted, what it
//! changes and leaves, what it reports and what it puts on record.

use vstd::prelude::*;

use crate::admin_log::{AdminActionType, AuditSource};
use crate::errors::KoraError;
use crate::token_account::{CapProposal, LimitError, TokenAccount};
use crate::treasury::{
    all_accounts, drain_transfer, fulfilled, treasury_error, Transfer, TreasuryError,
    TreasuryEvent, TreasuryState, UpgradeProposal,
};
use crate::types::Address;

verus! {

/// Setting the access-control contract: by the admin alone, and nothing else
/// changes but the record of it.
pub proof fn law_access_control_is_set(
    s: TreasuryState,
    now: u64,
    admin: Address,
    access_control: Address,
)
    requires
        s.log.head < 500,
        s.log.total < u64::MAX,
    ensures
        s.access_control_set(now, admin, access_control) is Ok <==> s.admin == Some(admin),
        s.access_control_set(now, admin, access_control) == Err::<TreasuryState, TreasuryError>(TreasuryError::NotInitialized) <==> (s.admin is None),
        s.access_control_set(now, admin, access_control) == Err::<TreasuryState, TreasuryError>(TreasuryError::NotAdmin) <==> !(s.admin is None) && (s.admin != Some(admin)),
        s.access_control_set(now, admin, access_control) matches Ok(next) ==> {
            let e = next.log.entries[s.log.head];
            &&& next == (TreasuryState { access_control: Some(access_control), log: next.log, events: next.events, ..s })
            &&& next.events == s.events.push(TreasuryEvent::AccessControlUpdated { admin, access_control }).push(TreasuryEvent::AdminActionAudited { entry: e })
            &&& next.log.entries == s.log.entries.insert(s.log.head, e)
            &&& next.log.head == (s.log.head + 1) % 500
            &&& next.log.total == s.log.total + 1
            &&& e.sequence == s.log.total
            &&& e.timestamp == now
            &&& e.actor == admin
            &&& e.action == AdminActionType::SetAccessControl
            &&& e.source == AuditSource::Treasury
        },
{
}

/// Setting the fee: by the admin alone, up to 100 %, and the report names the fee
/// before, which is 0.5 % where none was set.
pub proof fn law_fee_is_set(
    s: TreasuryState,
    now: u64,
    admin: Address,
    fee_bps: u32,
)
    requires
        s.log.head < 500,
        s.log.total < u64::MAX,
    ensures
        s.fee_set(now, admin, fee_bps) is Ok <==> s.admin == Some(admin) && !(fee_bps > 10_000),
        s.fee_set(now, admin, fee_bps) == Err::<TreasuryState, TreasuryError>(TreasuryError::NotInitialized) <==> (s.admin is None),
        s.fee_set(now, admin, fee_bps) == Err::<TreasuryState, TreasuryError>(TreasuryError::NotAdmin) <==> !(s.admin is None) && (s.admin != Some(admin)),
        s.fee_set(now, admin, fee_bps) == Err::<TreasuryState, TreasuryError>(TreasuryError::InvalidFeeRate) <==> !(s.admin is None) && !(s.admin != Some(admin)) && (fee_bps > 10_000),
        s.fee_set(now, admin, fee_bps) matches Ok(next) ==> {
            let e = next.log.entries[s.log.head];
            &&& next == (TreasuryState { fee_bps: Some(fee_bps), log: next.log, events: next.events, ..s })
            &&& next.events == s.events.push(TreasuryEvent::FeeRateUpdated {
                admin,
                old_bps: match s.fee_bps {
                    Some(bps) => bps,
                    None => 50,
                },
                new_bps: fee_bps,
            }).push(TreasuryEvent::AdminActionAudited { entry: e })
            &&& next.log.entries == s.log.entries.insert(s.log.head, e)
            &&& next.log.head == (s.log.head + 1) % 500
            &&& next.log.total == s.log.total + 1
            &&& e.sequence == s.log.total
            &&& e.timestamp == now
            &&& e.actor == admin
            &&& e.action == AdminActionType::SetFeeBps
            &&& e.source == AuditSource::Treasury
        },
{
}

/// Whitelisting a token: by the admin alone, and of the token's record the flag
/// alone changes.
pub proof fn law_token_is_whitelisted(
    s: TreasuryState,
    now: u64,
    admin: Address,
    token: Address,
)
    requires
        s.log.head < 500,
        s.log.total < u64::MAX,
    ensures
        s.token_whitelisted(now, admin, token) is Ok <==> s.admin == Some(admin),
        s.token_whitelisted(now, admin, token) == Err::<TreasuryState, TreasuryError>(TreasuryError::NotInitialized) <==> (s.admin is None),
        s.token_whitelisted(now, admin, token) == Err::<TreasuryState, TreasuryError>(TreasuryError::NotAdmin) <==> !(s.admin is None) && (s.admin != Some(admin)),
        s.token_whitelisted(now, admin, token) matches Ok(next) ==> {
            let e = next.log.entries[s.log.head];
            &&& next == (TreasuryState { accounts: s.accounts.insert(
                token,
                TokenAccount { whitelisted: true, ..s.accounts[token] },
            ), log: next.log, events: next.events, ..s })
            &&& next.events == s.events.push(TreasuryEvent::TokenWhitelisted { admin, token }).push(TreasuryEvent::AdminActionAudited { entry: e })
            &&& next.log.entries == s.log.entries.insert(s.log.head, e)
            &&& next.log.head == (s.log.head + 1) % 500
            &&& next.log.total == s.log.total + 1
            &&& e.sequence == s.log.total
            &&& e.timestamp == now
            &&& e.actor == admin
            &&& e.action == AdminActionType::WhitelistToken
            &&& e.source == AuditSource::Treasury
        },
{
}

/// Declaring an emergency: by the admin alone, and the flag alone changes.
pub proof fn law_emergency_is_declared(
    s: TreasuryState,
    now: u64,
    admin: Address,
)
    requires
        s.log.head < 500,
        s.log.total < u64::MAX,
    ensures
        s.emergency_begun(now, admin) is Ok <==> s.admin == Some(admin),
        s.emergency_begun(now, admin) == Err::<TreasuryState, TreasuryError>(TreasuryError::NotInitialized) <==> (s.admin is None),
        s.emergency_begun(now, admin) == Err::<TreasuryState, TreasuryError>(TreasuryError::NotAdmin) <==> !(s.admin is None) && (s.admin != Some(admin)),
        s.emergency_begun(now, admin) matches Ok(next) ==> {
            let e = next.log.entries[s.log.head];
            &&& next == (TreasuryState { emergency_declared: true, log: next.log, events: next.events, ..s })
            &&& next.events == s.events.push(TreasuryEvent::EmergencyDeclared { admin }).push(TreasuryEvent::AdminActionAudited { entry: e })
            &&& next.log.entries == s.log.entries.insert(s.log.head, e)
            &&& next.log.head == (s.log.head + 1) % 500
            &&& next.log.total == s.log.total + 1
            &&& e.sequence == s.log.total
            &&& e.timestamp == now
            &&& e.actor == admin
            &&& e.action == AdminActionType::DeclareEmergency
            &&& e.source == AuditSource::Treasury
        },
{
}

/// Revoking an emergency: by the admin alone, and the flag alone changes.
pub proof fn law_emergency_is_revoked(
    s: TreasuryState,
    now: u64,
    admin: Address,
)
    requires
        s.log.head < 500,
        s.log.total < u64::MAX,
    ensures
        s.emergency_ended(now, admin) is Ok <==> s.admin == Some(admin),
        s.emergency_ended(now, admin) == Err::<TreasuryState, TreasuryError>(TreasuryError::NotInitialized) <==> (s.admin is None),
        s.emergency_ended(now, admin) == Err::<TreasuryState, TreasuryError>(TreasuryError::NotAdmin) <==> !(s.admin is None) && (s.admin != Some(admin)),
        s.emergency_ended(now, admin) matches Ok(next) ==> {
            let e = next.log.entries[s.log.head];
            &&& next == (TreasuryState { emergency_declared: false, log: next.log, events: next.events, ..s })
            &&& next.events == s.events.push(TreasuryEvent::EmergencyRevoked { admin }).push(TreasuryEvent::AdminActionAudited { entry: e })
            &&& next.log.entries == s.log.entries.insert(s.log.head, e)
            &&& next.log.head == (s.log.head + 1) % 500
            &&& next.log.total == s.log.total + 1
            &&& e.sequence == s.log.total
            &&& e.timestamp == now
            &&& e.actor == admin
            &&& e.action == AdminActionType::RevokeEmergency
            &&& e.source == AuditSource::Treasury
        },
{
}

/// Proposing a cap: by the admin alone and not below 0; of the token's record the
/// proposal alone changes.
pub proof fn law_cap_is_proposed(
    s: TreasuryState,
    now: u64,
    admin: Address,
    token: Address,
    new_cap: i128,
)
    requires
        s.log.head < 500,
        s.log.total < u64::MAX,
    ensures
        s.cap_proposed(now, admin, token, new_cap) is Ok <==> s.admin == Some(admin) && !(new_cap < 0),
        s.cap_proposed(now, admin, token, new_cap) == Err::<TreasuryState, TreasuryError>(TreasuryError::NotInitialized) <==> (s.admin is None),
        s.cap_proposed(now, admin, token, new_cap) == Err::<TreasuryState, TreasuryError>(TreasuryError::NotAdmin) <==> !(s.admin is None) && (s.admin != Some(admin)),
        s.cap_proposed(now, admin, token, new_cap) == Err::<TreasuryState, TreasuryError>(TreasuryError::InvalidAmount) <==> !(s.admin is None) && !(s.admin != Some(admin)) && (new_cap < 0),
        s.cap_proposed(now, admin, token, new_cap) matches Ok(next) ==> {
            let e = next.log.entries[s.log.head];
            &&& next == (TreasuryState { accounts: s.accounts.insert(
                token,
                TokenAccount {
                    cap_proposal: Some(CapProposal { new_cap, proposed_at: now }),
                    ..s.accounts[token]
                },
            ), log: next.log, events: next.events, ..s })
            &&& next.events == s.events.push(TreasuryEvent::WithdrawalCapProposed { admin, token, new_cap }).push(TreasuryEvent::AdminActionAudited { entry: e })
            &&& next.log.entries == s.log.entries.insert(s.log.head, e)
            &&& next.log.head == (s.log.head + 1) % 500
            &&& next.log.total == s.log.total + 1
            &&& e.sequence == s.log.total
            &&& e.timestamp == now
            &&& e.actor == admin
            &&& e.action == AdminActionType::ProposeWithdrawalCap
            &&& e.source == AuditSource::Treasury
        },
{
}

/// Executing a cap: by the admin alone, where one was proposed at least 86 400
/// seconds before. The proposed cap takes the place of the old one, and the proposal
/// is gone.
pub proof fn law_cap_is_executed(
    s: TreasuryState,
    now: u64,
    admin: Address,
    token: Address,
)
    requires
        s.log.head < 500,
        s.log.total < u64::MAX,
    ensures
        s.cap_executed(now, admin, token) is Ok <==> s.admin == Some(admin) && !(s.accounts[token].cap_proposal is None) && !(now < s.accounts[token].cap_proposal->0.proposed_at + 86_400),
        s.cap_executed(now, admin, token) == Err::<TreasuryState, TreasuryError>(TreasuryError::NotInitialized) <==> (s.admin is None),
        s.cap_executed(now, admin, token) == Err::<TreasuryState, TreasuryError>(TreasuryError::NotAdmin) <==> !(s.admin is None) && (s.admin != Some(admin)),
        s.cap_executed(now, admin, token) == Err::<TreasuryState, TreasuryError>(TreasuryError::NoCapChangeProposed) <==> !(s.admin is None) && !(s.admin != Some(admin)) && (s.accounts[token].cap_proposal is None),
        s.cap_executed(now, admin, token) == Err::<TreasuryState, TreasuryError>(TreasuryError::WithdrawalCapTimelockNotElapsed) <==> !(s.admin is None) && !(s.admin != Some(admin)) && !(s.accounts[token].cap_proposal is None) && (now < s.accounts[token].cap_proposal->0.proposed_at + 86_400),
        s.cap_executed(now, admin, token) matches Ok(next) ==> {
            let e = next.log.entries[s.log.head];
            &&& next == (TreasuryState { accounts: s.accounts.insert(
                token,
                TokenAccount {
                    cap: s.accounts[token].cap_proposal->0.new_cap,
                    cap_proposal: None,
                    ..s.accounts[token]
                },
            ), log: next.log, events: next.events, ..s })
            &&& next.events == s.events.push(TreasuryEvent::WithdrawalCapUpdated {
                admin,
                token,
                old_cap: s.accounts[token].cap,
                new_cap: s.accounts[token].cap_proposal->0.new_cap,
            }).push(TreasuryEvent::AdminActionAudited { entry: e })
            &&& next.log.entries == s.log.entries.insert(s.log.head, e)
            &&& next.log.head == (s.log.head + 1) % 500
            &&& next.log.total == s.log.total + 1
            &&& e.sequence == s.log.total
            &&& e.timestamp == now
            &&& e.actor == admin
            &&& e.action == AdminActionType::ExecuteWithdrawalCap
            &&& e.source == AuditSource::Treasury
        },
{
}

/// Proposing an upgrade: by the admin alone, and the proposal alone changes.
pub proof fn law_upgrade_is_proposed(
    s: TreasuryState,
    now: u64,
    admin: Address,
    wasm_hash: [u8; 32],
)
    requires
        s.log.head < 500,
        s.log.total < u64::MAX,
    ensures
        s.upgrade_proposed(now, admin, wasm_hash) is Ok <==> s.admin == Some(admin),
        s.upgrade_proposed(now, admin, wasm_hash) == Err::<TreasuryState, TreasuryError>(TreasuryError::NotInitialized) <==> (s.admin is None),
        s.upgrade_proposed(now, admin, wasm_hash) == Err::<TreasuryState, TreasuryError>(TreasuryError::NotAdmin) <==> !(s.admin is None) && (s.admin != Some(admin)),
        s.upgrade_proposed(now, admin, wasm_hash) matches Ok(next) ==> {
            let e = next.log.entries[s.log.head];
            &&& next == (TreasuryState { upgrade_proposal: Some(UpgradeProposal { wasm_hash, proposed_at: now }), log: next.log, events: next.events, ..s })
            &&& next.events == s.events.push(TreasuryEvent::UpgradeProposed { admin, wasm_hash }).push(TreasuryEvent::AdminActionAudited { entry: e })
            &&& next.log.entries == s.log.entries.insert(s.log.head, e)
            &&& next.log.head == (s.log.head + 1) % 500
            &&& next.log.total == s.log.total + 1
            &&& e.sequence == s.log.total
            &&& e.timestamp == now
            &&& e.actor == admin
            &&& e.action == AdminActionType::TreasuryProposeUpgrade
            &&& e.source == AuditSource::Treasury
        },
{
}

/// Executing an upgrade: by the admin alone, where one was proposed at least 86 400
/// seconds before; the proposal is gone.
pub proof fn law_upgrade_is_executed(
    s: TreasuryState,
    now: u64,
    admin: Address,
)
    requires
        s.log.head < 500,
        s.log.total < u64::MAX,
    ensures
        s.upgrade_executed(now, admin) is Ok <==> s.admin == Some(admin) && !(s.upgrade_proposal is None) && !(now < s.upgrade_proposal->0.proposed_at + 86_400),
        s.upgrade_executed(now, admin) == Err::<TreasuryState, TreasuryError>(TreasuryError::NotInitialized) <==> (s.admin is None),
        s.upgrade_executed(now, admin) == Err::<TreasuryState, TreasuryError>(TreasuryError::NotAdmin) <==> !(s.admin is None) && (s.admin != Some(admin)),
        s.upgrade_executed(now, admin) == Err::<TreasuryState, TreasuryError>(TreasuryError::NoUpgradeProposed) <==> !(s.admin is None) && !(s.admin != Some(admin)) && (s.upgrade_proposal is None),
        s.upgrade_executed(now, admin) == Err::<TreasuryState, TreasuryError>(TreasuryError::UpgradeTimelockNotElapsed) <==> !(s.admin is None) && !(s.admin != Some(admin)) && !(s.upgrade_proposal is None) && (now < s.upgrade_proposal->0.proposed_at + 86_400),
        s.upgrade_executed(now, admin) matches Ok(next) ==> {
            let e = next.log.entries[s.log.head];
            &&& next == (TreasuryState { upgrade_proposal: None, log: next.log, events: next.events, ..s })
            &&& next.events == s.events.push(TreasuryEvent::UpgradeExecuted { admin, wasm_hash: s.upgrade_proposal->0.wasm_hash }).push(TreasuryEvent::AdminActionAudited { entry: e })
            &&& next.log.entries == s.log.entries.insert(s.log.head, e)
            &&& next.log.head == (s.log.head + 1) % 500
            &&& next.log.total == s.log.total + 1
            &&& e.sequence == s.log.total
            &&& e.timestamp == now
            &&& e.actor == admin
            &&& e.action == AdminActionType::TreasuryExecuteUpgrade
            &&& e.source == AuditSource::Treasury
        },
{
}

/// A withdrawal is granted exactly where the admin asks, the protocol is not seen
/// paused, the amount is positive and at most half the range, the token is listed,
/// there is no cap or the cap covers the amount and what was withdrawn in the running
/// epoch (nothing, where a day has passed since it began), the lock is free, and the
/// balance covers the amount. It is refused for the first of these that fails.
pub proof fn law_withdrawal_is_granted_when(
    s: TreasuryState,
    now: u64,
    paused: bool,
    admin: Address,
    token: Address,
    amount: i128,
    balance: i128,
)
    ensures
        ({
            let a = s.accounts[token];
            let over = a.epoch_start matches Some(start) && now - start >= 86_400;
            let spent: int = if over {
                0
            } else {
                a.epoch_withdrawn as int
            };
            let r = s.withdrawn(now, paused, admin, token, amount, balance);
            let begun = s.withdrawal_begun(now, paused, admin, token, amount);
            let refusal = Err::<TreasuryState, TreasuryError>(
                if s.admin is None {
                    TreasuryError::NotInitialized
                } else if s.admin != Some(admin) {
                    TreasuryError::NotAdmin
                } else if s.access_control is Some && paused {
                    TreasuryError::ProtocolPaused
                } else if amount <= 0 || amount > i128::MAX / 2 {
                    TreasuryError::InvalidAmount
                } else if !a.whitelisted {
                    TreasuryError::TokenNotWhitelisted
                } else if a.cap != 0 && spent + amount > i128::MAX {
                    TreasuryError::ArithmeticOverflow
                } else if a.cap != 0 && spent + amount > a.cap {
                    TreasuryError::WithdrawalRateLimitExceeded
                } else if s.locked {
                    TreasuryError::Reentrancy
                } else {
                    TreasuryError::InsufficientPoolBalance
                },
            );
            let allowed = s.admin == Some(admin) && !(s.access_control is Some && paused) && 0 < amount
                && amount <= i128::MAX / 2 && a.whitelisted && (a.cap == 0 || spent + amount <= a.cap)
                && !s.locked;
            &&& r is Ok <==> allowed && amount <= balance
            &&& r is Err ==> r == refusal
            &&& begun is Ok <==> allowed
            &&& begun is Err ==> begun == refusal
        }),
{
}

/// A withdrawal that begins an epoch, because there was none or a day has passed
/// since the last one began, is held against the cap like any other: an amount above
/// the cap is refused, whatever the balance.
pub proof fn law_cap_covers_first_withdrawal_of_epoch(
    s: TreasuryState,
    now: u64,
    paused: bool,
    admin: Address,
    token: Address,
    amount: i128,
    balance: i128,
)
    requires
        s.accounts[token].cap > 0,
        match s.accounts[token].epoch_start {
            Some(start) => now - start >= 86_400,
            None => s.accounts[token].epoch_withdrawn >= 0,
        },
    ensures
        s.withdrawn(now, paused, admin, token, amount, balance) is Ok ==> amount
            <= s.accounts[token].cap,
        s.withdrawal_begun(now, paused, admin, token, amount) is Ok ==> amount
            <= s.accounts[token].cap,
        amount > s.accounts[token].cap && amount <= i128::MAX / 2 && s.admin == Some(admin)
            && !paused && s.accounts[token].whitelisted && s.accounts[token].epoch_withdrawn
            <= i128::MAX / 2 ==> s.withdrawn(now, paused, admin, token, amount, balance) == Err::<TreasuryState, TreasuryError>(
            TreasuryError::WithdrawalRateLimitExceeded,
        ),
{
}

/// What a withdrawal does: of the token's record the ledger, if there is one, loses
/// the amount, as far as it goes; under a cap the epoch counts the amount and dates
/// from its first withdrawal. The lock is free, the withdrawal is on record, and
/// nothing else changes.
pub proof fn law_withdrawal_is_booked(
    s: TreasuryState,
    now: u64,
    paused: bool,
    admin: Address,
    token: Address,
    amount: i128,
    balance: i128,
)
    requires
        s.log.head < 500,
        s.log.total < u64::MAX,
    ensures
        s.withdrawn(now, paused, admin, token, amount, balance) matches Ok(next) ==> {
            let a = s.accounts[token];
            let over = a.epoch_start matches Some(start) && now - start >= 86_400;
            let spent: int = if over {
                0
            } else {
                a.epoch_withdrawn as int
            };
            let n = next.accounts[token];
            let e = next.log.entries[s.log.head];
            &&& next.events == s.events.push(TreasuryEvent::FeeWithdrawn { admin, token, amount }).push(TreasuryEvent::AdminActionAudited { entry: e })
            &&& next.log.entries == s.log.entries.insert(s.log.head, e)
            &&& next.log.head == (s.log.head + 1) % 500
            &&& next.log.total == s.log.total + 1
            &&& e.sequence == s.log.total
            &&& e.timestamp == now
            &&& e.actor == admin
            &&& e.action == AdminActionType::Withdraw
            &&& e.source == AuditSource::Treasury
            &&& next == (TreasuryState {
                accounts: s.accounts.insert(token, n),
                locked: false,
                log: next.log,
                events: next.events,
                ..s
            })
            &&& n.whitelisted == a.whitelisted
            &&& n.cap == a.cap
            &&& n.cap_proposal == a.cap_proposal
            &&& a.collected is None ==> n.collected is None
            &&& a.collected matches Some(c) ==> n.collected == Some(
                if c - amount >= i128::MIN {
                    (c - amount) as i128
                } else {
                    i128::MIN
                },
            )
            &&& a.cap == 0 ==> n.epoch_start == a.epoch_start && n.epoch_withdrawn
                == a.epoch_withdrawn
            &&& a.cap != 0 ==> n.epoch_withdrawn == spent + amount
            &&& a.cap != 0 && a.epoch_start is Some && !over ==> n.epoch_start == a.epoch_start
            &&& a.cap != 0 && (a.epoch_start is None || over) ==> n.epoch_start == Some(now)
        },
{
    if let Ok(next) = s.withdrawn(now, paused, admin, token, amount, balance) {
        assert(next.accounts =~= s.accounts.insert(token, next.accounts[token]));
    }
}

/// What the steps of a withdrawal do, one by one.
pub proof fn law_withdrawal_step_by_step(
    s: TreasuryState,
    now: u64,
    paused: bool,
    admin: Address,
    token: Address,
    recipient: Address,
    amount: i128,
    balance: i128,
)
    requires
        s.log.head < 500,
        s.log.total < u64::MAX,
    ensures
        s.withdrawal_begun(now, paused, admin, token, amount) matches Ok(next) ==> {
            let a = s.accounts[token];
            let over = a.epoch_start matches Some(start) && now - start >= 86_400;
            let spent: int = if over {
                0
            } else {
                a.epoch_withdrawn as int
            };
            let n = next.accounts[token];
            &&& next == (TreasuryState {
                accounts: s.accounts.insert(token, n),
                locked: true,
                ..s
            })
            &&& n == (TokenAccount {
                epoch_start: n.epoch_start,
                epoch_withdrawn: n.epoch_withdrawn,
                ..a
            })
            &&& a.cap == 0 ==> n == a
            &&& a.cap != 0 ==> n.epoch_withdrawn == spent
            &&& a.cap != 0 && a.epoch_start is Some && !over ==> n.epoch_start == a.epoch_start
            &&& a.cap != 0 && (a.epoch_start is None || over) ==> n.epoch_start == Some(now)
        },
        ({
            let a = s.accounts[token];
            let next = s.withdrawal_recorded(token, amount);
            let n = next.accounts[token];
            &&& next == (TreasuryState { accounts: s.accounts.insert(token, n), ..s })
            &&& n == (TokenAccount {
                collected: n.collected,
                epoch_withdrawn: n.epoch_withdrawn,
                ..a
            })
            &&& a.collected is None ==> n.collected is None
            &&& a.collected matches Some(c) ==> n.collected is Some && (if c - amount < i128::MIN {
                n.collected->0 == i128::MIN
            } else if c - amount > i128::MAX {
                n.collected->0 == i128::MAX
            } else {
                n.collected->0 == c - amount
            })
            &&& a.cap == 0 ==> n.epoch_withdrawn == a.epoch_withdrawn
            &&& a.cap != 0 ==> if a.epoch_withdrawn + amount < i128::MIN {
                n.epoch_withdrawn == i128::MIN
            } else if a.epoch_withdrawn + amount > i128::MAX {
                n.epoch_withdrawn == i128::MAX
            } else {
                n.epoch_withdrawn == a.epoch_withdrawn + amount
            }
        }),
        ({
            let (r, next) = s.withdrawal_settled(token, recipient, amount, balance);
            if balance < amount {
                &&& r == Err::<Transfer, TreasuryError>(TreasuryError::InsufficientPoolBalance)
                &&& next == (TreasuryState { locked: false, ..s })
            } else {
                &&& r matches Ok(t) && t.token == token && t.recipient == recipient && t.amount
                    == amount
                &&& next == s.withdrawal_recorded(token, amount)
            }
        }),
        ({
            let next = s.withdrawal_finished(now, admin, token, amount);
            let e = next.log.entries[s.log.head];
            &&& next.events == s.events.push(TreasuryEvent::FeeWithdrawn { admin, token, amount }).push(TreasuryEvent::AdminActionAudited { entry: e })
            &&& next.log.entries == s.log.entries.insert(s.log.head, e)
            &&& next.log.head == (s.log.head + 1) % 500
            &&& next.log.total == s.log.total + 1
            &&& e.sequence == s.log.total
            &&& e.timestamp == now
            &&& e.actor == admin
            &&& e.action == AdminActionType::Withdraw
            &&& e.source == AuditSource::Treasury
            &&& next == (TreasuryState {
                locked: false,
                log: next.log,
                events: next.events,
                ..s
            })
        }),
{
    if let Ok(next) = s.withdrawal_begun(now, paused, admin, token, amount) {
        assert(next.accounts =~= s.accounts.insert(token, next.accounts[token]));
    }
}

/// An emergency withdrawal is granted exactly where the admin asks, the token is
/// listed, an emergency is declared and the lock is free; it is refused for the first
/// of these that fails.
pub proof fn law_drain_is_granted_when(
    s: TreasuryState,
    now: u64,
    admin: Address,
    token: Address,
    balance: i128,
)
    ensures
        ({
            let r = s.drained(now, admin, token, balance);
            let begun = s.drain_begun(admin, token);
            let refusal = Err::<TreasuryState, TreasuryError>(
                if s.admin is None {
                    TreasuryError::NotInitialized
                } else if s.admin != Some(admin) {
                    TreasuryError::NotAdmin
                } else if !s.accounts[token].whitelisted {
                    TreasuryError::TokenNotWhitelisted
                } else if !s.emergency_declared {
                    TreasuryError::EmergencyNotDeclared
                } else {
                    TreasuryError::Reentrancy
                },
            );
            let allowed = s.admin == Some(admin) && s.accounts[token].whitelisted
                && s.emergency_declared && !s.locked;
            &&& r is Ok <==> allowed
            &&& r is Err ==> r == refusal
            &&& begun is Ok <==> allowed
            &&& begun is Err ==> begun == refusal
            &&& begun matches Ok(next) ==> next == (TreasuryState { locked: true, ..s })
        }),
{
}

/// What an emergency withdrawal does: it is on record as one, with a report of its
/// own where anything was paid out, and nothing else changes. All of a positive
/// balance is to be transferred, and nothing otherwise.
pub proof fn law_drain_is_on_record(
    s: TreasuryState,
    now: u64,
    admin: Address,
    token: Address,
    recipient: Address,
    balance: i128,
)
    requires
        s.log.head < 500,
        s.log.total < u64::MAX,
    ensures
        s.drained(now, admin, token, balance) matches Ok(next) ==> next == s.drain_finished(
            now,
            admin,
            token,
            balance,
        ),
        ({
            let next = s.drain_finished(now, admin, token, balance);
            let e = next.log.entries[s.log.head];
            &&& next == (TreasuryState {
                locked: false,
                log: next.log,
                events: next.events,
                ..s
            })
            &&& balance > 0 ==> next.events == s.events.push(
                TreasuryEvent::EmergencyWithdrawn { admin, token, amount: balance },
            ).push(TreasuryEvent::AdminActionAudited { entry: e })
            &&& balance <= 0 ==> next.events == s.events.push(
                TreasuryEvent::AdminActionAudited { entry: e },
            )
            &&& next.log.entries == s.log.entries.insert(s.log.head, e)
            &&& next.log.head == (s.log.head + 1) % 500
            &&& next.log.total == s.log.total + 1
            &&& e.sequence == s.log.total
            &&& e.timestamp == now
            &&& e.actor == admin
            &&& e.action == AdminActionType::EmergencyWithdraw
            &&& e.source == AuditSource::Treasury
        }),
        balance <= 0 ==> drain_transfer(token, recipient, balance) is None,
        balance > 0 ==> drain_transfer(token, recipient, balance) == Some(
            Transfer { token, recipient, amount: balance },
        ),
{
}

/// Collecting a fee: positive, in a listed token, and as long as the ledger can hold
/// the sum. The ledger grows by the amount, and nothing else changes but the report.
pub proof fn law_fee_is_collected(s: TreasuryState, this: Address, token: Address, amount: i128)
    ensures
        ({
            let a = s.accounts[token];
            let before: int = match a.collected {
                Some(c) => c as int,
                None => 0,
            };
            let r = s.fee_collected(this, token, amount);
            &&& r is Ok <==> amount > 0 && a.whitelisted && before + amount <= i128::MAX
            &&& amount <= 0 ==> r == Err::<TreasuryState, TreasuryError>(TreasuryError::InvalidAmount)
            &&& amount > 0 && !a.whitelisted ==> r == Err::<TreasuryState, TreasuryError>(TreasuryError::TokenNotWhitelisted)
            &&& amount > 0 && a.whitelisted && before + amount > i128::MAX ==> r == Err::<TreasuryState, TreasuryError>(
                TreasuryError::ArithmeticOverflow,
            )
            &&& r matches Ok(next) ==> {
                let n = next.accounts[token];
                &&& n.collected matches Some(c) && c == before + amount
                &&& n == (TokenAccount { collected: n.collected, ..a })
                &&& next == (TreasuryState {
                    accounts: s.accounts.insert(token, n),
                    events: s.events.push(
                        TreasuryEvent::FeeCollected {
                            contract: this,
                            invoice_id: 0,
                            amount,
                            token,
                        },
                    ),
                    ..s
                })
            }
        }),
{
}

/// Initialization: once, with a fee of at most 100 % and an admin other than the
/// contract itself; it sets these two, and nothing else changes but the report.
pub proof fn law_treasury_is_initialized(
    s: TreasuryState,
    this: Address,
    admin: Address,
    fee_bps: u32,
)
    ensures
        ({
            let r = s.initialized(this, admin, fee_bps);
            &&& r is Ok <==> s.admin is None && fee_bps <= 10_000 && admin != this
            &&& s.admin is Some ==> r == Err::<TreasuryState, TreasuryError>(TreasuryError::AlreadyInitialized)
            &&& s.admin is None && fee_bps > 10_000 ==> r == Err::<TreasuryState, TreasuryError>(TreasuryError::InvalidFeeRate)
            &&& s.admin is None && fee_bps <= 10_000 && admin == this ==> r == Err::<TreasuryState, TreasuryError>(
                TreasuryError::InvalidAddress,
            )
            &&& r matches Ok(next) ==> next == (TreasuryState {
                admin: Some(admin),
                fee_bps: Some(fee_bps),
                events: s.events.push(TreasuryEvent::Initialized { admin, fee_bps }),
                ..s
            })
        }),
{
}

/// What is read of the treasury: the fee, 0.5 % where none was set; the ledger of a
/// token, 0 where there is none; the admin; and the pause, which counts only where
/// access control is set up.
pub proof fn law_treasury_is_read(s: TreasuryState, token: Address, paused: bool)
    ensures
        s.fee_bps matches Some(bps) ==> s.fee() == bps,
        s.fee_bps is None ==> s.fee() == 50,
        s.accounts[token].collected matches Some(c) ==> s.accounts[token].collected_total() == c,
        s.accounts[token].collected is None ==> s.accounts[token].collected_total() == 0,
        s.sees_pause(paused) <==> s.access_control is Some && paused,
{
}

/// A new treasury: no admin, fee, access control, emergency, proposal, entry or
/// event, a free lock, and of every token nothing known.
pub proof fn law_treasury_begins_blank(
    token: Address,
    stored: vstd::map::Map<Address, TokenAccount>,
)
    ensures
        ({
            let s = TreasuryState::blank();
            &&& s.admin is None
            &&& s.fee_bps is None
            &&& s.access_control is None
            &&& !s.emergency_declared
            &&& s.upgrade_proposal is None
            &&& !s.locked
            &&& s.log.head == 0
            &&& s.log.total == 0
            &&& forall|pos: u64| !(#[trigger] s.log.entries.contains_key(pos))
            &&& s.events.len() == 0
            &&& s.accounts.contains_key(token)
            &&& !s.accounts[token].whitelisted
            &&& s.accounts[token].collected is None
            &&& s.accounts[token].cap == 0
            &&& s.accounts[token].cap_proposal is None
            &&& s.accounts[token].epoch_start is None
            &&& s.accounts[token].epoch_withdrawn == 0
        }),
        all_accounts(stored).contains_key(token),
        stored.contains_key(token) ==> all_accounts(stored)[token] == stored[token],
        !stored.contains_key(token) ==> all_accounts(stored)[token]
            == TreasuryState::blank().accounts[token],
{
}

/// A call either does all that is wanted of it and returns the value that is wanted,
/// or gives the error that is wanted and changes nothing.
pub proof fn law_treasury_calls_are_all_or_nothing<T>(
    before: TreasuryState,
    wanted: Result<TreasuryState, TreasuryError>,
    after: TreasuryState,
    result: Result<T, TreasuryError>,
    value: T,
)
    requires
        fulfilled(before, wanted, after, result, value),
    ensures
        wanted matches Ok(next) ==> after == next && result == Ok::<T, TreasuryError>(value),
        wanted matches Err(e) ==> after == before && result == Err::<T, TreasuryError>(e),
{
}

/// The rate limit on one record: what may be withdrawn at `now`, and the record at
/// the epoch of `now`.
pub proof fn law_rate_limit(a: TokenAccount, now: u64, amount: i128)
    ensures
        ({
            let over = a.epoch_start matches Some(start) && now - start >= 86_400;
            let spent: int = if over {
                0
            } else {
                a.epoch_withdrawn as int
            };
            let r = a.limit_check(now, amount);
            let n = a.rolled(now);
            &&& a.cap == 0 ==> r is Ok && n == a
            &&& a.cap != 0 ==> {
                &&& r is Ok <==> i128::MIN <= spent + amount <= a.cap
                &&& spent + amount < i128::MIN || spent + amount > i128::MAX ==> r == Err::<
                    (),
                    LimitError,
                >(LimitError::Overflow)
                &&& i128::MIN <= spent + amount <= i128::MAX && spent + amount > a.cap ==> r
                    == Err::<(), LimitError>(LimitError::Exceeded)
                &&& n.epoch_withdrawn == spent
                &&& n.epoch_start == (if a.epoch_start is Some && !over {
                    a.epoch_start
                } else {
                    Some(now)
                })
                &&& n == (TokenAccount {
                    epoch_start: n.epoch_start,
                    epoch_withdrawn: n.epoch_withdrawn,
                    ..a
                })
            }
        }),
{
}

/// The treasury's error for a shared one: the error of the same name, and
/// `InvalidAmount` for any that has none.
pub proof fn law_shared_errors_keep_their_names(e: KoraError)
    ensures
        e == KoraError::InvalidAmount ==> treasury_error(e) == TreasuryError::InvalidAmount,
        e == KoraError::InvalidAddress ==> treasury_error(e) == TreasuryError::InvalidAddress,
        e == KoraError::InvalidFeeRate ==> treasury_error(e) == TreasuryError::InvalidFeeRate,
        e == KoraError::ArithmeticOverflow ==> treasury_error(e)
            == TreasuryError::ArithmeticOverflow,
        e == KoraError::Reentrancy ==> treasury_error(e) == TreasuryError::Reentrancy,
        e != KoraError::InvalidAddress && e != KoraError::InvalidFeeRate && e
            != KoraError::ArithmeticOverflow && e != KoraError::Reentrancy ==> treasury_error(e)
            == TreasuryError::InvalidAmount,
{
}

} // verus!
