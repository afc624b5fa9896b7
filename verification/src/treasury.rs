//! The treasury: it keeps the protocol fee and the fees collected per token, and
//! lets the admin withdraw them within a rolling limit.

use vstd::prelude::*;

use crate::admin_log::{AdminActionType, AdminAuditEntry, AdminLog, AdminLogState};
use crate::audit::MAX_AUDIT_LOG_SIZE;
use crate::errors::KoraError;
use crate::reentrancy::{acquire_guard, release_guard, GuardStorage};
use crate::table::Table;
use crate::token_account::{CapProposal, LimitError, TokenAccount};
use crate::types::{Address, Key};
use crate::validation::{
    is_timelock_elapsed, require_non_negative_amount, require_not_self, require_valid_fee_bps,
    require_within_max_amount, timelock_elapsed, MAX_AMOUNT, MAX_FEE_BPS,
};

verus! {

/// The protocol fee until one is set: 0.5 %, in basis points.
pub const DEFAULT_FEE_BPS: u32 = 50;

/// Why the treasury refused a call. Variants stand in the order of their numeric
/// codes.
#[derive(Copy, Clone, Debug, Eq, PartialEq, PartialOrd, Ord, Structural)]
pub enum TreasuryError {
    AlreadyInitialized,
    ArithmeticOverflow,
    InsufficientPoolBalance,
    InvalidAddress,
    InvalidAmount,
    InvalidFeeRate,
    NoCapChangeProposed,
    NoUpgradeProposed,
    NotAdmin,
    NotInitialized,
    Reentrancy,
    TokenNotWhitelisted,
    UpgradeTimelockNotElapsed,
    WithdrawalCapTimelockNotElapsed,
    WithdrawalRateLimitExceeded,
    /// The protocol is paused.
    ProtocolPaused,
    /// The funds may be drained only once an emergency is declared.
    EmergencyNotDeclared,
}

impl TreasuryError {
    /// The numeric code of the error.
    pub open spec fn spec_code(self) -> u32 {
        match self {
            TreasuryError::AlreadyInitialized => 1,
            TreasuryError::ArithmeticOverflow => 2,
            TreasuryError::InsufficientPoolBalance => 3,
            TreasuryError::InvalidAddress => 4,
            TreasuryError::InvalidAmount => 5,
            TreasuryError::InvalidFeeRate => 6,
            TreasuryError::NoCapChangeProposed => 7,
            TreasuryError::NoUpgradeProposed => 8,
            TreasuryError::NotAdmin => 9,
            TreasuryError::NotInitialized => 10,
            TreasuryError::Reentrancy => 11,
            TreasuryError::TokenNotWhitelisted => 12,
            TreasuryError::UpgradeTimelockNotElapsed => 13,
            TreasuryError::WithdrawalCapTimelockNotElapsed => 14,
            TreasuryError::WithdrawalRateLimitExceeded => 15,
            TreasuryError::ProtocolPaused => 16,
            TreasuryError::EmergencyNotDeclared => 17,
        }
    }

    /// The numeric code of the error.
    pub fn code(self) -> (r: u32)
        ensures
            r == self.spec_code(),
    {
        match self {
            TreasuryError::AlreadyInitialized => 1,
            TreasuryError::ArithmeticOverflow => 2,
            TreasuryError::InsufficientPoolBalance => 3,
            TreasuryError::InvalidAddress => 4,
            TreasuryError::InvalidAmount => 5,
            TreasuryError::InvalidFeeRate => 6,
            TreasuryError::NoCapChangeProposed => 7,
            TreasuryError::NoUpgradeProposed => 8,
            TreasuryError::NotAdmin => 9,
            TreasuryError::NotInitialized => 10,
            TreasuryError::Reentrancy => 11,
            TreasuryError::TokenNotWhitelisted => 12,
            TreasuryError::UpgradeTimelockNotElapsed => 13,
            TreasuryError::WithdrawalCapTimelockNotElapsed => 14,
            TreasuryError::WithdrawalRateLimitExceeded => 15,
            TreasuryError::ProtocolPaused => 16,
            TreasuryError::EmergencyNotDeclared => 17,
        }
    }
}

/// The treasury's error for a shared one.
pub open spec fn treasury_error(e: KoraError) -> TreasuryError {
    match e {
        KoraError::InvalidAddress => TreasuryError::InvalidAddress,
        KoraError::InvalidFeeRate => TreasuryError::InvalidFeeRate,
        KoraError::ArithmeticOverflow => TreasuryError::ArithmeticOverflow,
        KoraError::Reentrancy => TreasuryError::Reentrancy,
        _ => TreasuryError::InvalidAmount,
    }
}

impl vstd::std_specs::convert::FromSpecImpl<KoraError> for TreasuryError {
    open spec fn obeys_from_spec() -> bool {
        true
    }

    open spec fn from_spec(e: KoraError) -> TreasuryError {
        treasury_error(e)
    }
}

impl From<KoraError> for TreasuryError {
    fn from(e: KoraError) -> (r: TreasuryError) {
        match e {
            KoraError::InvalidAddress => TreasuryError::InvalidAddress,
            KoraError::InvalidFeeRate => TreasuryError::InvalidFeeRate,
            KoraError::ArithmeticOverflow => TreasuryError::ArithmeticOverflow,
            KoraError::Reentrancy => TreasuryError::Reentrancy,
            // Any other shared error comes from a check on an amount.
            _ => TreasuryError::InvalidAmount,
        }
    }
}

/// What the treasury reports to observers.
#[derive(Clone, Copy, Debug, PartialEq, Eq)]
pub enum TreasuryEvent {
    Initialized { admin: Address, fee_bps: u32 },
    AccessControlUpdated { admin: Address, access_control: Address },
    FeeRateUpdated { admin: Address, old_bps: u32, new_bps: u32 },
    TokenWhitelisted { admin: Address, token: Address },
    FeeCollected { contract: Address, invoice_id: u64, amount: i128, token: Address },
    FeeWithdrawn { admin: Address, token: Address, amount: i128 },
    EmergencyWithdrawn { admin: Address, token: Address, amount: i128 },
    EmergencyDeclared { admin: Address },
    EmergencyRevoked { admin: Address },
    WithdrawalCapProposed { admin: Address, token: Address, new_cap: i128 },
    WithdrawalCapUpdated { admin: Address, token: Address, old_cap: i128, new_cap: i128 },
    UpgradeProposed { admin: Address, wasm_hash: [u8; 32] },
    UpgradeExecuted { admin: Address, wasm_hash: [u8; 32] },
    AdminActionAudited { entry: AdminAuditEntry },
}

/// A proposed contract upgrade, and when it was proposed.
#[derive(Clone, Copy, Debug, PartialEq, Eq)]
pub struct UpgradeProposal {
    pub wasm_hash: [u8; 32],
    pub proposed_at: u64,
}

/// A payment out of the treasury.
#[derive(Clone, Copy, Debug, PartialEq, Eq)]
pub struct Transfer {
    pub token: Address,
    pub recipient: Address,
    pub amount: i128,
}

/// What the treasury knows, as a mathematical value.
#[verifier::ext_equal]
pub struct TreasuryState {
    pub admin: Option<Address>,
    pub fee_bps: Option<u32>,
    /// The record of every token; that of an unknown one is blank.
    pub accounts: Map<Address, TokenAccount>,
    pub access_control: Option<Address>,
    pub emergency_declared: bool,
    pub upgrade_proposal: Option<UpgradeProposal>,
    pub locked: bool,
    pub log: AdminLogState,
    pub events: Seq<TreasuryEvent>,
}

impl TreasuryState {
    /// The state before initialization.
    pub open spec fn blank() -> TreasuryState {
        TreasuryState {
            admin: None,
            fee_bps: None,
            accounts: Map::new(|token: Address| true, |token: Address| TokenAccount::blank()),
            access_control: None,
            emergency_declared: false,
            upgrade_proposal: None,
            locked: false,
            log: AdminLogState::blank(),
            events: Seq::empty(),
        }
    }

    /// Whether `caller` may act as the admin, and the refusal if not.
    pub open spec fn admin_check(self, caller: Address) -> Result<(), TreasuryError> {
        match self.admin {
            None => Err(TreasuryError::NotInitialized),
            Some(admin) => if admin == caller {
                Ok(())
            } else {
                Err(TreasuryError::NotAdmin)
            },
        }
    }

    /// The fee in force, in basis points.
    pub open spec fn fee(self) -> u32 {
        match self.fee_bps {
            Some(bps) => bps,
            None => DEFAULT_FEE_BPS,
        }
    }

    /// Whether the treasury takes the protocol to be paused, given what the
    /// access-control contract answers.
    pub open spec fn sees_pause(self, paused: bool) -> bool {
        self.access_control is Some && paused
    }

    /// The state with `account` as the record of `token`.
    pub open spec fn with_account(self, token: Address, account: TokenAccount) -> TreasuryState {
        TreasuryState { accounts: self.accounts.insert(token, account), ..self }
    }

    /// The state once `event` has been reported.
    pub open spec fn emitted(self, event: TreasuryEvent) -> TreasuryState {
        TreasuryState { events: self.events.push(event), ..self }
    }

    /// The state once an admin action has been logged and reported.
    pub open spec fn audited(self, now: u64, actor: Address, action: AdminActionType) -> TreasuryState {
        let entry = self.log.entry(now, actor, action);
        TreasuryState {
            log: self.log.appended(entry),
            ..self.emitted(TreasuryEvent::AdminActionAudited { entry })
        }
    }

    /// What `initialize` does.
    pub open spec fn initialized(self, this: Address, admin: Address, fee_bps: u32) -> Result<
        TreasuryState,
        TreasuryError,
    > {
        if self.admin is Some {
            Err(TreasuryError::AlreadyInitialized)
        } else if fee_bps > MAX_FEE_BPS {
            Err(TreasuryError::InvalidFeeRate)
        } else if admin == this {
            Err(TreasuryError::InvalidAddress)
        } else {
            Ok(
                TreasuryState { admin: Some(admin), fee_bps: Some(fee_bps), ..self }.emitted(
                    TreasuryEvent::Initialized { admin, fee_bps },
                ),
            )
        }
    }

    /// What `set_access_control` does.
    pub open spec fn access_control_set(
        self,
        now: u64,
        admin: Address,
        access_control: Address,
    ) -> Result<TreasuryState, TreasuryError> {
        match self.admin_check(admin) {
            Err(e) => Err(e),
            Ok(()) => Ok(
                TreasuryState { access_control: Some(access_control), ..self }.emitted(
                    TreasuryEvent::AccessControlUpdated { admin, access_control },
                ).audited(now, admin, AdminActionType::SetAccessControl),
            ),
        }
    }

    /// What `set_fee_bps` does.
    pub open spec fn fee_set(self, now: u64, admin: Address, fee_bps: u32) -> Result<
        TreasuryState,
        TreasuryError,
    > {
        match self.admin_check(admin) {
            Err(e) => Err(e),
            Ok(()) => if fee_bps > MAX_FEE_BPS {
                Err(TreasuryError::InvalidFeeRate)
            } else {
                Ok(
                    TreasuryState { fee_bps: Some(fee_bps), ..self }.emitted(
                        TreasuryEvent::FeeRateUpdated {
                            admin,
                            old_bps: self.fee(),
                            new_bps: fee_bps,
                        },
                    ).audited(now, admin, AdminActionType::SetFeeBps),
                )
            },
        }
    }

    /// What `whitelist_token` does.
    pub open spec fn token_whitelisted(self, now: u64, admin: Address, token: Address) -> Result<
        TreasuryState,
        TreasuryError,
    > {
        match self.admin_check(admin) {
            Err(e) => Err(e),
            Ok(()) => Ok(
                self.with_account(
                    token,
                    TokenAccount { whitelisted: true, ..self.accounts[token] },
                ).emitted(TreasuryEvent::TokenWhitelisted { admin, token }).audited(
                    now,
                    admin,
                    AdminActionType::WhitelistToken,
                ),
            ),
        }
    }

    /// What `collect_fee` does.
    pub open spec fn fee_collected(self, this: Address, token: Address, amount: i128) -> Result<
        TreasuryState,
        TreasuryError,
    > {
        let account = self.accounts[token];
        let total = account.collected_total() + amount;
        if amount <= 0 {
            Err(TreasuryError::InvalidAmount)
        } else if !account.whitelisted {
            Err(TreasuryError::TokenNotWhitelisted)
        } else if total > i128::MAX {
            Err(TreasuryError::ArithmeticOverflow)
        } else {
            Ok(
                self.with_account(
                    token,
                    TokenAccount { collected: Some(total as i128), ..account },
                ).emitted(
                    TreasuryEvent::FeeCollected { contract: this, invoice_id: 0, amount, token },
                ),
            )
        }
    }

    /// What `begin_withdraw` does: all checks that need no balance, then the lock.
    pub open spec fn withdrawal_begun(
        self,
        now: u64,
        paused: bool,
        admin: Address,
        token: Address,
        amount: i128,
    ) -> Result<TreasuryState, TreasuryError> {
        match self.admin_check(admin) {
            Err(e) => Err(e),
            Ok(()) => if self.sees_pause(paused) {
                Err(TreasuryError::ProtocolPaused)
            } else if amount <= 0 || amount > MAX_AMOUNT {
                Err(TreasuryError::InvalidAmount)
            } else if !self.accounts[token].whitelisted {
                Err(TreasuryError::TokenNotWhitelisted)
            } else {
                match self.accounts[token].limit_check(now, amount) {
                    Err(LimitError::Overflow) => Err(TreasuryError::ArithmeticOverflow),
                    Err(LimitError::Exceeded) => Err(TreasuryError::WithdrawalRateLimitExceeded),
                    Ok(()) => if self.locked {
                        Err(TreasuryError::Reentrancy)
                    } else {
                        Ok(
                            TreasuryState {
                                locked: true,
                                ..self.with_account(token, self.accounts[token].rolled(now))
                            },
                        )
                    },
                }
            },
        }
    }

    /// The state once the ledger and the epoch of `token` reflect a withdrawal.
    pub open spec fn withdrawal_recorded(self, token: Address, amount: i128) -> TreasuryState {
        self.with_account(token, self.accounts[token].debited(amount))
    }

    /// What `settle_withdraw` returns and leaves.
    pub open spec fn withdrawal_settled(
        self,
        token: Address,
        recipient: Address,
        amount: i128,
        balance: i128,
    ) -> (Result<Transfer, TreasuryError>, TreasuryState) {
        if balance < amount {
            (
                Err(TreasuryError::InsufficientPoolBalance),
                TreasuryState { locked: false, ..self },
            )
        } else {
            (
                Ok(Transfer { token, recipient, amount }),
                self.withdrawal_recorded(token, amount),
            )
        }
    }

    /// What `finish_withdraw` does.
    pub open spec fn withdrawal_finished(
        self,
        now: u64,
        admin: Address,
        token: Address,
        amount: i128,
    ) -> TreasuryState {
        TreasuryState { locked: false, ..self }.emitted(
            TreasuryEvent::FeeWithdrawn { admin, token, amount },
        ).audited(now, admin, AdminActionType::Withdraw)
    }

    /// What `withdraw` does when the treasury holds `balance` of the token.
    pub open spec fn withdrawn(
        self,
        now: u64,
        paused: bool,
        admin: Address,
        token: Address,
        amount: i128,
        balance: i128,
    ) -> Result<TreasuryState, TreasuryError> {
        match self.withdrawal_begun(now, paused, admin, token, amount) {
            Err(e) => Err(e),
            Ok(begun) => if balance < amount {
                Err(TreasuryError::InsufficientPoolBalance)
            } else {
                Ok(
                    begun.withdrawal_recorded(token, amount).withdrawal_finished(
                        now,
                        admin,
                        token,
                        amount,
                    ),
                )
            },
        }
    }

    /// What `begin_emergency_withdraw` does: all checks, then the lock.
    pub open spec fn drain_begun(self, admin: Address, token: Address) -> Result<
        TreasuryState,
        TreasuryError,
    > {
        match self.admin_check(admin) {
            Err(e) => Err(e),
            Ok(()) => if !self.accounts[token].whitelisted {
                Err(TreasuryError::TokenNotWhitelisted)
            } else if !self.emergency_declared {
                Err(TreasuryError::EmergencyNotDeclared)
            } else if self.locked {
                Err(TreasuryError::Reentrancy)
            } else {
                Ok(TreasuryState { locked: true, ..self })
            },
        }
    }

    /// What `finish_emergency_withdraw` does after `balance` was paid out.
    pub open spec fn drain_finished(
        self,
        now: u64,
        admin: Address,
        token: Address,
        balance: i128,
    ) -> TreasuryState {
        let unlocked = TreasuryState { locked: false, ..self };
        let reported = if balance > 0 {
            unlocked.emitted(TreasuryEvent::EmergencyWithdrawn { admin, token, amount: balance })
        } else {
            unlocked
        };
        reported.audited(now, admin, AdminActionType::EmergencyWithdraw)
    }

    /// What `emergency_withdraw` does when the treasury holds `balance` of the token.
    pub open spec fn drained(self, now: u64, admin: Address, token: Address, balance: i128) -> Result<
        TreasuryState,
        TreasuryError,
    > {
        match self.drain_begun(admin, token) {
            Err(e) => Err(e),
            Ok(begun) => Ok(begun.drain_finished(now, admin, token, balance)),
        }
    }

    /// What `declare_emergency` does.
    pub open spec fn emergency_begun(self, now: u64, admin: Address) -> Result<
        TreasuryState,
        TreasuryError,
    > {
        match self.admin_check(admin) {
            Err(e) => Err(e),
            Ok(()) => Ok(
                TreasuryState { emergency_declared: true, ..self }.emitted(
                    TreasuryEvent::EmergencyDeclared { admin },
                ).audited(now, admin, AdminActionType::DeclareEmergency),
            ),
        }
    }

    /// What `revoke_emergency` does.
    pub open spec fn emergency_ended(self, now: u64, admin: Address) -> Result<
        TreasuryState,
        TreasuryError,
    > {
        match self.admin_check(admin) {
            Err(e) => Err(e),
            Ok(()) => Ok(
                TreasuryState { emergency_declared: false, ..self }.emitted(
                    TreasuryEvent::EmergencyRevoked { admin },
                ).audited(now, admin, AdminActionType::RevokeEmergency),
            ),
        }
    }

    /// What `propose_withdrawal_cap` does.
    pub open spec fn cap_proposed(self, now: u64, admin: Address, token: Address, new_cap: i128) -> Result<
        TreasuryState,
        TreasuryError,
    > {
        match self.admin_check(admin) {
            Err(e) => Err(e),
            Ok(()) => if new_cap < 0 {
                Err(TreasuryError::InvalidAmount)
            } else {
                let proposal = CapProposal { new_cap, proposed_at: now };
                Ok(
                    self.with_account(
                        token,
                        TokenAccount { cap_proposal: Some(proposal), ..self.accounts[token] },
                    ).emitted(
                        TreasuryEvent::WithdrawalCapProposed { admin, token, new_cap },
                    ).audited(now, admin, AdminActionType::ProposeWithdrawalCap),
                )
            },
        }
    }

    /// What `execute_withdrawal_cap` does.
    pub open spec fn cap_executed(self, now: u64, admin: Address, token: Address) -> Result<
        TreasuryState,
        TreasuryError,
    > {
        let account = self.accounts[token];
        match (self.admin_check(admin), account.cap_proposal) {
            (Err(e), _) => Err(e),
            (Ok(()), None) => Err(TreasuryError::NoCapChangeProposed),
            (Ok(()), Some(proposal)) => if !timelock_elapsed(now, proposal.proposed_at) {
                Err(TreasuryError::WithdrawalCapTimelockNotElapsed)
            } else {
                Ok(
                    self.with_account(
                        token,
                        TokenAccount { cap: proposal.new_cap, cap_proposal: None, ..account },
                    ).emitted(
                        TreasuryEvent::WithdrawalCapUpdated {
                            admin,
                            token,
                            old_cap: account.cap,
                            new_cap: proposal.new_cap,
                        },
                    ).audited(now, admin, AdminActionType::ExecuteWithdrawalCap),
                )
            },
        }
    }

    /// What `propose_upgrade` does.
    pub open spec fn upgrade_proposed(self, now: u64, admin: Address, wasm_hash: [u8; 32]) -> Result<
        TreasuryState,
        TreasuryError,
    > {
        match self.admin_check(admin) {
            Err(e) => Err(e),
            Ok(()) => {
                let proposal = UpgradeProposal { wasm_hash, proposed_at: now };
                Ok(
                    TreasuryState { upgrade_proposal: Some(proposal), ..self }.emitted(
                        TreasuryEvent::UpgradeProposed { admin, wasm_hash },
                    ).audited(now, admin, AdminActionType::TreasuryProposeUpgrade),
                )
            },
        }
    }

    /// What `execute_upgrade` does.
    pub open spec fn upgrade_executed(self, now: u64, admin: Address) -> Result<
        TreasuryState,
        TreasuryError,
    > {
        match (self.admin_check(admin), self.upgrade_proposal) {
            (Err(e), _) => Err(e),
            (Ok(()), None) => Err(TreasuryError::NoUpgradeProposed),
            (Ok(()), Some(proposal)) => if !timelock_elapsed(now, proposal.proposed_at) {
                Err(TreasuryError::UpgradeTimelockNotElapsed)
            } else {
                Ok(
                    TreasuryState { upgrade_proposal: None, ..self }.emitted(
                        TreasuryEvent::UpgradeExecuted { admin, wasm_hash: proposal.wasm_hash },
                    ).audited(now, admin, AdminActionType::TreasuryExecuteUpgrade),
                )
            },
        }
    }
}

/// Whether a call did what `wanted` says: it left the wanted state and returned
/// `value`, or it gave the wanted error and changed nothing.
pub open spec fn fulfilled<T>(
    before: TreasuryState,
    wanted: Result<TreasuryState, TreasuryError>,
    after: TreasuryState,
    result: Result<T, TreasuryError>,
    value: T,
) -> bool {
    match wanted {
        Ok(next) => result == Ok::<T, TreasuryError>(value) && after == next,
        Err(e) => result == Err::<T, TreasuryError>(e) && after == before,
    }
}

/// The transfer of an emergency withdrawal: all of a balance that is not zero.
pub open spec fn drain_transfer(token: Address, recipient: Address, balance: i128) -> Option<
    Transfer,
> {
    if balance > 0 {
        Some(Transfer { token, recipient, amount: balance })
    } else {
        None
    }
}

/// The treasury's stored state, with the events that wait to be published.
#[derive(Debug)]
pub struct TreasuryContract {
    pub admin: Option<Address>,
    pub fee_bps: Option<u32>,
    pub accounts: Table<Address, TokenAccount>,
    pub access_control: Option<Address>,
    pub emergency_declared: bool,
    pub upgrade_proposal: Option<UpgradeProposal>,
    pub guard: GuardStorage,
    pub log: AdminLog,
    pub events: Vec<TreasuryEvent>,
}

/// The record of every token, blank where `accounts` has none.
pub open spec fn all_accounts(accounts: Map<Address, TokenAccount>) -> Map<Address, TokenAccount> {
    Map::new(
        |token: Address| true,
        |token: Address|
            if accounts.contains_key(token) {
                accounts[token]
            } else {
                TokenAccount::blank()
            },
    )
}

impl View for TreasuryContract {
    type V = TreasuryState;

    open spec fn view(&self) -> TreasuryState {
        TreasuryState {
            admin: self.admin,
            fee_bps: self.fee_bps,
            accounts: all_accounts(self.accounts@),
            access_control: self.access_control,
            emergency_declared: self.emergency_declared,
            upgrade_proposal: self.upgrade_proposal,
            locked: self.guard.locked(),
            log: self.log@,
            events: self.events@,
        }
    }
}

impl TreasuryContract {
    /// A treasury that has not been initialized.
    pub fn new() -> (r: TreasuryContract)
        ensures
            r@ == TreasuryState::blank(),
    {
        let r: TreasuryContract = TreasuryContract {
            admin: None,
            fee_bps: None,
            accounts: Table::new(),
            access_control: None,
            emergency_declared: false,
            upgrade_proposal: None,
            guard: GuardStorage::new(),
            log: AdminLog::new(),
            events: Vec::new(),
        };
        assert(r@ =~= TreasuryState::blank());
        r
    }

    /// One-time initialization of the contract at address `this`. Sets the admin
    /// and the fee, in basis points.
    pub fn initialize(&mut self, this: Address, admin: Address, fee_bps: u32) -> (r: Result<
        (),
        TreasuryError,
    >)
        ensures
            fulfilled(
                old(self)@,
                old(self)@.initialized(this, admin, fee_bps),
                final(self)@,
                r,
                (),
            ),
    {
        if self.admin.is_some() {
            return Err(TreasuryError::AlreadyInitialized);
        }
        if let Err(e) = require_valid_fee_bps(fee_bps) {
            return Err(TreasuryError::from(e));
        }
        if let Err(e) = require_not_self(&this, &admin) {
            return Err(TreasuryError::from(e));
        }
        self.admin = Some(admin);
        self.fee_bps = Some(fee_bps);
        self.events.push(TreasuryEvent::Initialized { admin, fee_bps });
        Ok(())
    }

    /// Sets the access-control contract that tells whether the protocol is
    /// paused. Admin only.
    pub fn set_access_control(&mut self, now: u64, admin: Address, access_control: Address) -> (r:
        Result<(), TreasuryError>)
        requires
            old(self)@.log.has_room(),
        ensures
            fulfilled(
                old(self)@,
                old(self)@.access_control_set(now, admin, access_control),
                final(self)@,
                r,
                (),
            ),
    {
        self.require_admin(&admin)?;
        self.access_control = Some(access_control);
        self.events.push(TreasuryEvent::AccessControlUpdated { admin, access_control });
        self.append_audit_entry(now, admin, AdminActionType::SetAccessControl);
        Ok(())
    }

    /// Sets the protocol fee, in basis points. Admin only.
    pub fn set_fee_bps(&mut self, now: u64, admin: Address, fee_bps: u32) -> (r: Result<
        (),
        TreasuryError,
    >)
        requires
            old(self)@.log.has_room(),
        ensures
            fulfilled(old(self)@, old(self)@.fee_set(now, admin, fee_bps), final(self)@, r, ()),
    {
        self.require_admin(&admin)?;
        if let Err(e) = require_valid_fee_bps(fee_bps) {
            return Err(TreasuryError::from(e));
        }
        let old_bps: u32 = self.get_fee_bps();
        self.fee_bps = Some(fee_bps);
        self.events.push(TreasuryEvent::FeeRateUpdated { admin, old_bps, new_bps: fee_bps });
        self.append_audit_entry(now, admin, AdminActionType::SetFeeBps);
        Ok(())
    }

    /// Allows a token for fees and withdrawals. Admin only; safe to repeat.
    pub fn whitelist_token(&mut self, now: u64, admin: Address, token: Address) -> (r: Result<
        (),
        TreasuryError,
    >)
        requires
            old(self)@.log.has_room(),
        ensures
            fulfilled(
                old(self)@,
                old(self)@.token_whitelisted(now, admin, token),
                final(self)@,
                r,
                (),
            ),
    {
        self.require_admin(&admin)?;
        let mut account: TokenAccount = self.account(&token);
        account.whitelisted = true;
        self.set_account(token, account);
        self.events.push(TreasuryEvent::TokenWhitelisted { admin, token });
        self.append_audit_entry(now, admin, AdminActionType::WhitelistToken);
        Ok(())
    }

    /// Records a fee that was paid to the contract at address `this`.
    pub fn collect_fee(&mut self, this: Address, token: Address, amount: i128) -> (r: Result<
        (),
        TreasuryError,
    >)
        ensures
            fulfilled(
                old(self)@,
                old(self)@.fee_collected(this, token, amount),
                final(self)@,
                r,
                (),
            ),
    {
        if amount <= 0 {
            return Err(TreasuryError::InvalidAmount);
        }
        self.require_whitelisted_token(&token)?;
        let mut account: TokenAccount = self.account(&token);
        match self.get_collected(&token).checked_add(amount) {
            Some(new_total) => {
                account.collected = Some(new_total);
            },
            None => {
                return Err(TreasuryError::ArithmeticOverflow);
            },
        }
        self.set_account(token, account);
        self.events.push(
            TreasuryEvent::FeeCollected { contract: this, invoice_id: 0, amount, token },
        );
        Ok(())
    }

    /// The first step of a withdrawal: makes every check that does not need the
    /// balance, and takes the lock. `paused` is what the access-control contract
    /// answers. The caller then reads the balance for `settle_withdraw`.
    pub fn begin_withdraw(
        &mut self,
        now: u64,
        paused: bool,
        admin: Address,
        token: Address,
        amount: i128,
    ) -> (r: Result<(), TreasuryError>)
        ensures
            fulfilled(
                old(self)@,
                old(self)@.withdrawal_begun(now, paused, admin, token, amount),
                final(self)@,
                r,
                (),
            ),
    {
        self.require_admin(&admin)?;
        self.require_not_paused(paused)?;
        if amount <= 0 {
            return Err(TreasuryError::InvalidAmount);
        }
        if let Err(e) = require_within_max_amount(amount) {
            return Err(TreasuryError::from(e));
        }
        self.require_whitelisted_token(&token)?;
        let mut account: TokenAccount = self.account(&token);
        match account.enforce_rate_limit(now, amount) {
            Ok(()) => {},
            Err(LimitError::Overflow) => {
                return Err(TreasuryError::ArithmeticOverflow);
            },
            Err(LimitError::Exceeded) => {
                return Err(TreasuryError::WithdrawalRateLimitExceeded);
            },
        }
        if let Err(e) = acquire_guard(&mut self.guard) {
            return Err(TreasuryError::from(e));
        }
        self.set_account(token, account);
        Ok(())
    }

    /// The second step of a withdrawal: if `balance` covers `amount`, books the
    /// withdrawal and returns the transfer that the caller is to make. If it does
    /// not, the lock is released.
    pub fn settle_withdraw(
        &mut self,
        token: Address,
        recipient: Address,
        amount: i128,
        balance: i128,
    ) -> (r: Result<Transfer, TreasuryError>)
        ensures
            balance < amount ==> r == Err::<Transfer, TreasuryError>(
                TreasuryError::InsufficientPoolBalance,
            ) && final(self)@ == (TreasuryState { locked: false, ..old(self)@ }),
            balance >= amount ==> r == Ok::<Transfer, TreasuryError>(
                (Transfer { token, recipient, amount }),
            ) && final(self)@ == old(self)@.withdrawal_recorded(token, amount),
            r == old(self)@.withdrawal_settled(token, recipient, amount, balance).0,
            final(self)@ == old(self)@.withdrawal_settled(token, recipient, amount, balance).1,
    {
        if balance < amount {
            release_guard(&mut self.guard);
            return Err(TreasuryError::InsufficientPoolBalance);
        }
        let mut account: TokenAccount = self.account(&token);
        account.record_withdrawal(amount);
        self.set_account(token, account);
        Ok(Transfer { token, recipient, amount })
    }

    /// The last step of a withdrawal, once the transfer is made: reports it and
    /// releases the lock.
    pub fn finish_withdraw(&mut self, now: u64, admin: Address, token: Address, amount: i128)
        requires
            old(self)@.log.has_room(),
        ensures
            final(self)@ == old(self)@.withdrawal_finished(now, admin, token, amount),
    {
        self.events.push(TreasuryEvent::FeeWithdrawn { admin, token, amount });
        self.append_audit_entry(now, admin, AdminActionType::Withdraw);
        release_guard(&mut self.guard);
    }

    /// Withdraws collected fees, for a token of which the treasury holds
    /// `balance`. Admin only. Returns the transfer to make. The three steps in one,
    /// for a transfer during which nothing calls back.
    pub fn withdraw(
        &mut self,
        now: u64,
        paused: bool,
        admin: Address,
        token: Address,
        recipient: Address,
        amount: i128,
        balance: i128,
    ) -> (r: Result<Transfer, TreasuryError>)
        requires
            old(self)@.log.has_room(),
        ensures
            fulfilled(
                old(self)@,
                old(self)@.withdrawn(now, paused, admin, token, amount, balance),
                final(self)@,
                r,
                (Transfer { token, recipient, amount }),
            ),
    {
        let before: TokenAccount = self.account(&token);
        self.begin_withdraw(now, paused, admin, token, amount)?;
        match self.settle_withdraw(token, recipient, amount, balance) {
            Ok(transfer) => {
                self.finish_withdraw(now, admin, token, amount);
                Ok(transfer)
            },
            Err(e) => {
                self.set_account(token, before);
                assert(self@ =~= old(self)@);
                Err(e)
            },
        }
    }

    /// The first step of an emergency withdrawal: makes the checks and takes the
    /// lock. The caller then reads the balance for `emergency_transfer`.
    pub fn begin_emergency_withdraw(&mut self, admin: Address, token: Address) -> (r: Result<
        (),
        TreasuryError,
    >)
        ensures
            fulfilled(old(self)@, old(self)@.drain_begun(admin, token), final(self)@, r, ()),
    {
        self.require_admin(&admin)?;
        self.require_whitelisted_token(&token)?;
        if !self.emergency_declared {
            return Err(TreasuryError::EmergencyNotDeclared);
        }
        match acquire_guard(&mut self.guard) {
            Ok(()) => Ok(()),
            Err(e) => Err(TreasuryError::from(e)),
        }
    }

    /// The transfer of an emergency withdrawal: all of a balance that is not zero.
    pub fn emergency_transfer(token: Address, recipient: Address, balance: i128) -> (r: Option<
        Transfer,
    >)
        ensures
            r == drain_transfer(token, recipient, balance),
    {
        if balance > 0 {
            Some(Transfer { token, recipient, amount: balance })
        } else {
            None
        }
    }

    /// The last step of an emergency withdrawal, once the transfer is made:
    /// reports it and releases the lock.
    pub fn finish_emergency_withdraw(
        &mut self,
        now: u64,
        admin: Address,
        token: Address,
        balance: i128,
    )
        requires
            old(self)@.log.has_room(),
        ensures
            final(self)@ == old(self)@.drain_finished(now, admin, token, balance),
    {
        if balance > 0 {
            self.events.push(TreasuryEvent::EmergencyWithdrawn { admin, token, amount: balance });
        }
        self.append_audit_entry(now, admin, AdminActionType::EmergencyWithdraw);
        release_guard(&mut self.guard);
    }

    /// Drains a token of which the treasury holds `balance`. Admin only, and only
    /// once an emergency is declared. Returns the transfer to make, if there is
    /// anything to transfer. The three steps in one, for a transfer during which
    /// nothing calls back.
    pub fn emergency_withdraw(
        &mut self,
        now: u64,
        admin: Address,
        token: Address,
        recipient: Address,
        balance: i128,
    ) -> (r: Result<Option<Transfer>, TreasuryError>)
        requires
            old(self)@.log.has_room(),
        ensures
            fulfilled(
                old(self)@,
                old(self)@.drained(now, admin, token, balance),
                final(self)@,
                r,
                drain_transfer(token, recipient, balance),
            ),
    {
        self.begin_emergency_withdraw(admin, token)?;
        let transfer: Option<Transfer> = Self::emergency_transfer(token, recipient, balance);
        self.finish_emergency_withdraw(now, admin, token, balance);
        Ok(transfer)
    }

    /// Declares an emergency, which allows `emergency_withdraw`. Admin only.
    pub fn declare_emergency(&mut self, now: u64, admin: Address) -> (r: Result<(), TreasuryError>)
        requires
            old(self)@.log.has_room(),
        ensures
            fulfilled(old(self)@, old(self)@.emergency_begun(now, admin), final(self)@, r, ()),
    {
        self.require_admin(&admin)?;
        self.emergency_declared = true;
        self.events.push(TreasuryEvent::EmergencyDeclared { admin });
        self.append_audit_entry(now, admin, AdminActionType::DeclareEmergency);
        Ok(())
    }

    /// Ends an emergency. Admin only.
    pub fn revoke_emergency(&mut self, now: u64, admin: Address) -> (r: Result<(), TreasuryError>)
        requires
            old(self)@.log.has_room(),
        ensures
            fulfilled(old(self)@, old(self)@.emergency_ended(now, admin), final(self)@, r, ()),
    {
        self.require_admin(&admin)?;
        self.emergency_declared = false;
        self.events.push(TreasuryEvent::EmergencyRevoked { admin });
        self.append_audit_entry(now, admin, AdminActionType::RevokeEmergency);
        Ok(())
    }

    /// Whether an emergency is declared.
    pub fn is_emergency_declared(&self) -> (r: bool)
        ensures
            r == self@.emergency_declared,
    {
        self.emergency_declared
    }

    /// Whether the protocol is paused as far as the treasury is concerned, when
    /// the access-control contract answers `paused`.
    pub fn is_paused(&self, paused: bool) -> (r: bool)
        ensures
            r == self@.sees_pause(paused),
    {
        self.require_not_paused(paused).is_err()
    }

    /// Proposes a withdrawal cap for a token; 0 removes the limit. Admin only.
    pub fn propose_withdrawal_cap(
        &mut self,
        now: u64,
        admin: Address,
        token: Address,
        new_cap: i128,
    ) -> (r: Result<(), TreasuryError>)
        requires
            old(self)@.log.has_room(),
        ensures
            fulfilled(
                old(self)@,
                old(self)@.cap_proposed(now, admin, token, new_cap),
                final(self)@,
                r,
                (),
            ),
    {
        self.require_admin(&admin)?;
        if let Err(e) = require_non_negative_amount(new_cap) {
            return Err(TreasuryError::from(e));
        }
        let mut account: TokenAccount = self.account(&token);
        account.cap_proposal = Some(CapProposal { new_cap, proposed_at: now });
        self.set_account(token, account);
        self.events.push(TreasuryEvent::WithdrawalCapProposed { admin, token, new_cap });
        self.append_audit_entry(now, admin, AdminActionType::ProposeWithdrawalCap);
        Ok(())
    }

    /// Puts the proposed withdrawal cap of a token in force, once its timelock
    /// has elapsed. Admin only.
    pub fn execute_withdrawal_cap(&mut self, now: u64, admin: Address, token: Address) -> (r:
        Result<(), TreasuryError>)
        requires
            old(self)@.log.has_room(),
        ensures
            fulfilled(
                old(self)@,
                old(self)@.cap_executed(now, admin, token),
                final(self)@,
                r,
                (),
            ),
    {
        self.require_admin(&admin)?;
        let mut account: TokenAccount = self.account(&token);
        let proposal: CapProposal = match account.cap_proposal {
            Some(proposal) => proposal,
            None => {
                return Err(TreasuryError::NoCapChangeProposed);
            },
        };
        if !is_timelock_elapsed(now, proposal.proposed_at) {
            return Err(TreasuryError::WithdrawalCapTimelockNotElapsed);
        }
        let old_cap: i128 = account.cap;
        let new_cap: i128 = proposal.new_cap;
        account.cap = new_cap;
        account.cap_proposal = None;
        self.set_account(token, account);
        self.events.push(TreasuryEvent::WithdrawalCapUpdated { admin, token, old_cap, new_cap });
        self.append_audit_entry(now, admin, AdminActionType::ExecuteWithdrawalCap);
        Ok(())
    }

    /// The withdrawal cap of a token; 0 if there is no limit.
    pub fn get_withdrawal_cap(&self, token: &Address) -> (r: i128)
        ensures
            r == self@.accounts[*token].cap,
    {
        self.account(token).cap
    }

    /// The protocol fee, in basis points.
    pub fn get_fee_bps(&self) -> (r: u32)
        ensures
            r == self@.fee(),
    {
        match self.fee_bps {
            Some(bps) => bps,
            None => DEFAULT_FEE_BPS,
        }
    }

    /// The fees collected in a token less those withdrawn; for information only.
    pub fn get_collected(&self, token: &Address) -> (r: i128)
        ensures
            r == self@.accounts[*token].collected_total(),
    {
        match self.account(token).collected {
            Some(collected) => collected,
            None => 0,
        }
    }

    /// The admin.
    pub fn get_admin(&self) -> (r: Result<Address, TreasuryError>)
        ensures
            r == (match self@.admin {
                Some(admin) => Ok(admin),
                None => Err(TreasuryError::NotInitialized),
            }),
    {
        match self.admin {
            Some(admin) => Ok(admin),
            None => Err(TreasuryError::NotInitialized),
        }
    }

    /// Proposes a contract upgrade. Admin only.
    pub fn propose_upgrade(&mut self, now: u64, admin: Address, new_wasm_hash: [u8; 32]) -> (r:
        Result<(), TreasuryError>)
        requires
            old(self)@.log.has_room(),
        ensures
            fulfilled(
                old(self)@,
                old(self)@.upgrade_proposed(now, admin, new_wasm_hash),
                final(self)@,
                r,
                (),
            ),
    {
        self.require_admin(&admin)?;
        self.upgrade_proposal = Some(
            UpgradeProposal { wasm_hash: new_wasm_hash, proposed_at: now },
        );
        self.events.push(TreasuryEvent::UpgradeProposed { admin, wasm_hash: new_wasm_hash });
        self.append_audit_entry(now, admin, AdminActionType::TreasuryProposeUpgrade);
        Ok(())
    }

    /// Takes up the proposed upgrade, once its timelock has elapsed. Admin only.
    /// Returns the hash of the code that the caller is to install.
    pub fn execute_upgrade(&mut self, now: u64, admin: Address) -> (r: Result<
        [u8; 32],
        TreasuryError,
    >)
        requires
            old(self)@.log.has_room(),
        ensures
            fulfilled(
                old(self)@,
                old(self)@.upgrade_executed(now, admin),
                final(self)@,
                r,
                old(self)@.upgrade_proposal->0.wasm_hash,
            ),
    {
        self.require_admin(&admin)?;
        let proposal: UpgradeProposal = match self.upgrade_proposal {
            Some(proposal) => proposal,
            None => {
                return Err(TreasuryError::NoUpgradeProposed);
            },
        };
        if !is_timelock_elapsed(now, proposal.proposed_at) {
            return Err(TreasuryError::UpgradeTimelockNotElapsed);
        }
        let wasm_hash: [u8; 32] = proposal.wasm_hash;
        self.upgrade_proposal = None;
        self.events.push(TreasuryEvent::UpgradeExecuted { admin, wasm_hash });
        self.append_audit_entry(now, admin, AdminActionType::TreasuryExecuteUpgrade);
        Ok(wasm_hash)
    }

    /// A page of the log of admin actions, newest first. Pages count from 0;
    /// `page_size` is clamped to between 1 and 50.
    pub fn get_audit_log(&self, page: u32, page_size: u32) -> (r: Vec<AdminAuditEntry>)
        requires
            self@.log.head < MAX_AUDIT_LOG_SIZE,
        ensures
            r@ == self@.log.page(page, page_size),
    {
        self.log.page(page, page_size)
    }

    /// The record of a token.
    pub fn account(&self, token: &Address) -> (r: TokenAccount)
        ensures
            r == self@.accounts[*token],
    {
        match self.accounts.get(token) {
            Some(account) => account,
            None => TokenAccount::new(),
        }
    }

    fn set_account(&mut self, token: Address, account: TokenAccount)
        ensures
            final(self)@ == old(self)@.with_account(token, account),
            final(self).guard == old(self).guard,
    {
        self.accounts.set(token, account);
        assert(self@ =~= old(self)@.with_account(token, account));
    }

    /// Refuses whoever is not the admin.
    pub fn require_admin(&self, caller: &Address) -> (r: Result<(), TreasuryError>)
        ensures
            r == self@.admin_check(*caller),
    {
        match self.admin {
            None => Err(TreasuryError::NotInitialized),
            Some(admin) => if admin.same(caller) {
                Ok(())
            } else {
                Err(TreasuryError::NotAdmin)
            },
        }
    }

    fn require_whitelisted_token(&self, token: &Address) -> (r: Result<(), TreasuryError>)
        ensures
            r == (if self@.accounts[*token].whitelisted {
                Ok::<(), TreasuryError>(())
            } else {
                Err(TreasuryError::TokenNotWhitelisted)
            }),
    {
        if !self.account(token).whitelisted {
            return Err(TreasuryError::TokenNotWhitelisted);
        }
        Ok(())
    }

    fn require_not_paused(&self, paused: bool) -> (r: Result<(), TreasuryError>)
        ensures
            r == (if self@.sees_pause(paused) {
                Err::<(), TreasuryError>(TreasuryError::ProtocolPaused)
            } else {
                Ok(())
            }),
    {
        if self.access_control.is_some() && paused {
            return Err(TreasuryError::ProtocolPaused);
        }
        Ok(())
    }

    fn append_audit_entry(&mut self, now: u64, actor: Address, action: AdminActionType)
        requires
            old(self)@.log.has_room(),
        ensures
            final(self)@ == old(self)@.audited(now, actor, action),
    {
        let entry: AdminAuditEntry = self.log.append(now, actor, action);
        self.events.push(TreasuryEvent::AdminActionAudited { entry });
    }
}

} // verus!
