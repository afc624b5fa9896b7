use kora::admin_log::{AdminActionType, AuditSource};
use kora::treasury::{Transfer, TreasuryContract, TreasuryError, TreasuryEvent};
use kora::types::{Address, AddressKind};
use kora::validation::{MAX_AMOUNT, UPGRADE_TIMELOCK_DELAY};

const NOW: u64 = 1_700_000_000;
const DAY: u64 = 86_400;

fn address(n: u8) -> Address {
    Address { kind: AddressKind::Account, payload: [n; 32] }
}

fn this() -> Address {
    Address { kind: AddressKind::Contract, payload: [77; 32] }
}

fn setup() -> (Address, TreasuryContract) {
    let mut treasury = TreasuryContract::new();
    let admin = address(1);
    treasury.initialize(this(), admin, 50).unwrap();
    (admin, treasury)
}

fn with_token() -> (Address, Address, Address, TreasuryContract) {
    let (admin, mut treasury) = setup();
    let token = address(10);
    treasury.whitelist_token(NOW, admin, token).unwrap();
    (admin, token, address(20), treasury)
}

fn with_cap(cap: i128) -> (Address, Address, Address, TreasuryContract) {
    let (admin, token, recipient, mut treasury) = with_token();
    treasury.propose_withdrawal_cap(NOW - DAY, admin, token, cap).unwrap();
    treasury.execute_withdrawal_cap(NOW, admin, token).unwrap();
    (admin, token, recipient, treasury)
}

#[test]
fn test_treasury_fee_management() {
    let (admin, mut treasury) = setup();
    assert_eq!(treasury.get_fee_bps(), 50);
    treasury.set_fee_bps(NOW, admin, 100).unwrap();
    assert_eq!(treasury.get_fee_bps(), 100);
}

#[test]
fn test_treasury_fee_above_max_rejected() {
    let (admin, mut treasury) = setup();
    assert_eq!(treasury.set_fee_bps(NOW, admin, 10_001), Err(TreasuryError::InvalidFeeRate));
}

#[test]
fn test_initialize_creates_contract() {
    let mut treasury = TreasuryContract::new();
    assert!(treasury.initialize(this(), address(1), 50).is_ok());
    assert_eq!(treasury.get_fee_bps(), 50);
    assert_eq!(
        treasury.events,
        vec![TreasuryEvent::Initialized { admin: address(1), fee_bps: 50 }]
    );
}

#[test]
fn test_initialize_already_initialized() {
    let (admin, mut treasury) = setup();
    assert_eq!(
        treasury.initialize(this(), admin, 50),
        Err(TreasuryError::AlreadyInitialized)
    );
}

#[test]
fn test_initialize_invalid_fee_bps() {
    let mut treasury = TreasuryContract::new();
    assert_eq!(
        treasury.initialize(this(), address(1), 10_001),
        Err(TreasuryError::InvalidFeeRate)
    );
    assert_eq!(treasury.get_admin(), Err(TreasuryError::NotInitialized));
}

#[test]
fn test_initialize_self_as_admin_rejected() {
    let mut treasury = TreasuryContract::new();
    assert_eq!(treasury.initialize(this(), this(), 50), Err(TreasuryError::InvalidAddress));
}

#[test]
fn test_get_fee_bps_after_init() {
    let (_admin, treasury) = setup();
    assert_eq!(treasury.get_fee_bps(), 50);
}

#[test]
fn test_set_fee_bps_success() {
    let (admin, mut treasury) = setup();
    treasury.set_fee_bps(NOW, admin, 100).unwrap();
    assert_eq!(treasury.get_fee_bps(), 100);
}

#[test]
fn test_set_fee_bps_requires_admin() {
    let (_admin, mut treasury) = setup();
    assert_eq!(treasury.set_fee_bps(NOW, address(2), 100), Err(TreasuryError::NotAdmin));
}

#[test]
fn test_set_fee_bps_invalid_bps_fails() {
    let (admin, mut treasury) = setup();
    assert!(treasury.set_fee_bps(NOW, admin, 10_001).is_err());
    assert_eq!(treasury.get_fee_bps(), 50);
}

#[test]
fn test_set_fee_bps_zero_allowed() {
    let (admin, mut treasury) = setup();
    treasury.set_fee_bps(NOW, admin, 0).unwrap();
    assert_eq!(treasury.get_fee_bps(), 0);
}

#[test]
fn test_set_fee_bps_max_allowed() {
    let (admin, mut treasury) = setup();
    treasury.set_fee_bps(NOW, admin, 10_000).unwrap();
    assert_eq!(treasury.get_fee_bps(), 10_000);
}

#[test]
fn test_set_fee_bps_over_max_fails() {
    let (admin, mut treasury) = setup();
    assert!(treasury.set_fee_bps(NOW, admin, 10_001).is_err());
}

#[test]
fn test_set_fee_bps_multiple_updates() {
    let (admin, mut treasury) = setup();
    treasury.set_fee_bps(NOW, admin, 100).unwrap();
    assert_eq!(treasury.get_fee_bps(), 100);
    treasury.set_fee_bps(NOW, admin, 200).unwrap();
    assert_eq!(treasury.get_fee_bps(), 200);
    treasury.set_fee_bps(NOW, admin, 50).unwrap();
    assert_eq!(treasury.get_fee_bps(), 50);
}

#[test]
fn test_fee_rate_updated_event_reports_correct_old_fee() {
    let mut treasury = TreasuryContract::new();
    let admin = address(1);
    treasury.initialize(this(), admin, 75).unwrap();
    assert_eq!(treasury.get_fee_bps(), 75);
    treasury.set_fee_bps(NOW, admin, 100).unwrap();
    assert_eq!(treasury.get_fee_bps(), 100);
    treasury.set_fee_bps(NOW, admin, 200).unwrap();
    assert_eq!(treasury.get_fee_bps(), 200);
    assert!(treasury
        .events
        .contains(&TreasuryEvent::FeeRateUpdated { admin, old_bps: 75, new_bps: 100 }));
    assert!(treasury
        .events
        .contains(&TreasuryEvent::FeeRateUpdated { admin, old_bps: 100, new_bps: 200 }));
}

#[test]
fn test_whitelist_token_idempotent() {
    let (admin, mut treasury) = setup();
    let token = address(10);
    assert!(treasury.whitelist_token(NOW, admin, token).is_ok());
    assert!(treasury.whitelist_token(NOW, admin, token).is_ok());
}

#[test]
fn test_whitelist_token_requires_admin() {
    let (_admin, mut treasury) = setup();
    assert_eq!(
        treasury.whitelist_token(NOW, address(2), address(10)),
        Err(TreasuryError::NotAdmin)
    );
}

#[test]
fn test_collect_fee_zero_amount_rejected() {
    let (_admin, token, _recipient, mut treasury) = with_token();
    assert_eq!(treasury.collect_fee(this(), token, 0), Err(TreasuryError::InvalidAmount));
}

#[test]
fn test_collect_fee_negative_amount_rejected() {
    let (_admin, token, _recipient, mut treasury) = with_token();
    assert_eq!(treasury.collect_fee(this(), token, -1), Err(TreasuryError::InvalidAmount));
}

#[test]
fn test_collect_fee_non_whitelisted_token_rejected() {
    let (_admin, mut treasury) = setup();
    assert_eq!(
        treasury.collect_fee(this(), address(10), 1_000),
        Err(TreasuryError::TokenNotWhitelisted)
    );
}

#[test]
fn test_collect_fee_accumulates() {
    let (_admin, token, _recipient, mut treasury) = with_token();
    treasury.collect_fee(this(), token, 500).unwrap();
    treasury.collect_fee(this(), token, 300).unwrap();
    assert_eq!(treasury.get_collected(&token), 800);
    assert_eq!(
        treasury.events.last(),
        Some(&TreasuryEvent::FeeCollected {
            contract: this(),
            invoice_id: 0,
            amount: 300,
            token
        })
    );
}

#[test]
fn test_collect_fee_overflow_rejected() {
    let (_admin, token, _recipient, mut treasury) = with_token();
    treasury.collect_fee(this(), token, i128::MAX).unwrap();
    assert_eq!(
        treasury.collect_fee(this(), token, 1),
        Err(TreasuryError::ArithmeticOverflow)
    );
    assert_eq!(treasury.get_collected(&token), i128::MAX);
}

#[test]
fn test_withdraw_requires_admin() {
    let (_admin, mut treasury) = setup();
    assert_eq!(
        treasury.withdraw(NOW, false, address(2), address(10), address(20), 1_000_000, 0),
        Err(TreasuryError::NotAdmin)
    );
}

#[test]
fn test_withdraw_zero_amount_fails() {
    let (admin, mut treasury) = setup();
    assert_eq!(
        treasury.withdraw(NOW, false, admin, address(10), address(20), 0, 0),
        Err(TreasuryError::InvalidAmount)
    );
}

#[test]
fn test_withdraw_with_negative_amount_rejected() {
    let (admin, mut treasury) = setup();
    assert_eq!(
        treasury.withdraw(NOW, false, admin, address(10), address(20), -1_000, 0),
        Err(TreasuryError::InvalidAmount)
    );
}

#[test]
fn test_withdraw_non_whitelisted_token_rejected() {
    let (admin, mut treasury) = setup();
    assert_eq!(
        treasury.withdraw(NOW, false, admin, address(10), address(20), 1_000, 0),
        Err(TreasuryError::TokenNotWhitelisted)
    );
}

#[test]
fn test_withdraw_insufficient_balance_fails() {
    let (admin, token, recipient, mut treasury) = with_token();
    assert_eq!(
        treasury.withdraw(NOW, false, admin, token, recipient, 1_000, 500),
        Err(TreasuryError::InsufficientPoolBalance)
    );
}

#[test]
fn test_withdraw_exact_balance_succeeds() {
    let (admin, token, recipient, mut treasury) = with_token();
    assert_eq!(
        treasury.withdraw(NOW, false, admin, token, recipient, 1_000, 1_000),
        Ok(Transfer { token, recipient, amount: 1_000 })
    );
}

#[test]
fn test_emergency_withdraw_requires_admin() {
    let (_admin, mut treasury) = setup();
    assert_eq!(
        treasury.emergency_withdraw(NOW, address(2), address(10), address(20), 5),
        Err(TreasuryError::NotAdmin)
    );
}

#[test]
fn test_emergency_withdraw_non_whitelisted_token_rejected() {
    let (admin, mut treasury) = setup();
    assert_eq!(
        treasury.emergency_withdraw(NOW, admin, address(10), address(20), 5),
        Err(TreasuryError::TokenNotWhitelisted)
    );
}

#[test]
fn test_emergency_withdraw_zero_balance_is_noop() {
    let (admin, token, recipient, mut treasury) = with_token();
    treasury.declare_emergency(NOW, admin).unwrap();
    assert_eq!(treasury.emergency_withdraw(NOW, admin, token, recipient, 0), Ok(None));
    assert!(!treasury.events.iter().any(|e| matches!(
        e,
        TreasuryEvent::EmergencyWithdrawn { .. }
    )));
}

#[test]
fn test_emergency_withdraw_drains_full_balance() {
    let (admin, token, recipient, mut treasury) = with_token();
    treasury.declare_emergency(NOW, admin).unwrap();
    assert_eq!(
        treasury.emergency_withdraw(NOW, admin, token, recipient, 5_000),
        Ok(Some(Transfer { token, recipient, amount: 5_000 }))
    );
    assert!(treasury
        .events
        .contains(&TreasuryEvent::EmergencyWithdrawn { admin, token, amount: 5_000 }));
}

#[test]
fn test_lock_released_after_failed_withdraw() {
    let (admin, mut treasury) = setup();
    let _ = treasury.withdraw(NOW, false, admin, address(10), address(20), 1_000, 0);
    assert!(treasury.set_fee_bps(NOW, admin, 100).is_ok());
    let (admin, token, recipient, mut treasury) = with_token();
    assert!(treasury.withdraw(NOW, false, admin, token, recipient, 2, 1).is_err());
    assert!(treasury.withdraw(NOW, false, admin, token, recipient, 1, 1).is_ok());
}

#[test]
fn test_lock_released_after_emergency_withdraw() {
    let (admin, mut treasury) = setup();
    let _ = treasury.emergency_withdraw(NOW, admin, address(10), address(20), 5);
    assert!(treasury.set_fee_bps(NOW, admin, 100).is_ok());
    let (admin, token, recipient, mut treasury) = with_token();
    treasury.declare_emergency(NOW, admin).unwrap();
    assert!(treasury.emergency_withdraw(NOW, admin, token, recipient, 5).is_ok());
    assert!(treasury.emergency_withdraw(NOW, admin, token, recipient, 5).is_ok());
}

#[test]
fn test_admin_actions_work_immediately_after_initialize() {
    let (admin, mut treasury) = setup();
    assert!(treasury.set_fee_bps(NOW, admin, 100).is_ok());
}

#[test]
fn test_get_fee_bps_default_before_init() {
    let treasury = TreasuryContract::new();
    assert_eq!(treasury.get_fee_bps(), 50);
}

#[test]
fn test_withdrawal_cap_default_is_uncapped() {
    let (_admin, treasury) = setup();
    assert_eq!(treasury.get_withdrawal_cap(&address(10)), 0);
}

#[test]
fn test_propose_withdrawal_cap_requires_admin() {
    let (_admin, mut treasury) = setup();
    assert_eq!(
        treasury.propose_withdrawal_cap(NOW, address(2), address(10), 1_000_000),
        Err(TreasuryError::NotAdmin)
    );
}

#[test]
fn test_propose_negative_cap_rejected() {
    let (admin, mut treasury) = setup();
    assert_eq!(
        treasury.propose_withdrawal_cap(NOW, admin, address(10), -1),
        Err(TreasuryError::InvalidAmount)
    );
}

#[test]
fn test_execute_cap_before_timelock_fails() {
    let (admin, mut treasury) = setup();
    let token = address(10);
    treasury.propose_withdrawal_cap(NOW, admin, token, 1_000_000).unwrap();
    assert_eq!(
        treasury.execute_withdrawal_cap(NOW, admin, token),
        Err(TreasuryError::WithdrawalCapTimelockNotElapsed)
    );
    assert_eq!(
        treasury.execute_withdrawal_cap(NOW + UPGRADE_TIMELOCK_DELAY - 1, admin, token),
        Err(TreasuryError::WithdrawalCapTimelockNotElapsed)
    );
    assert_eq!(treasury.get_withdrawal_cap(&token), 0);
}

#[test]
fn test_execute_cap_without_proposal_fails() {
    let (admin, mut treasury) = setup();
    assert_eq!(
        treasury.execute_withdrawal_cap(NOW, admin, address(10)),
        Err(TreasuryError::NoCapChangeProposed)
    );
}

#[test]
fn cap_takes_effect_once_timelock_has_elapsed() {
    let (admin, mut treasury) = setup();
    let token = address(10);
    treasury.propose_withdrawal_cap(NOW, admin, token, 900).unwrap();
    let later = NOW + UPGRADE_TIMELOCK_DELAY;
    assert_eq!(treasury.execute_withdrawal_cap(later, admin, token), Ok(()));
    assert_eq!(treasury.get_withdrawal_cap(&token), 900);
    assert_eq!(treasury.get_withdrawal_cap(&address(11)), 0);
    assert_eq!(
        treasury.execute_withdrawal_cap(later, admin, token),
        Err(TreasuryError::NoCapChangeProposed)
    );
    assert!(treasury.events.contains(&TreasuryEvent::WithdrawalCapUpdated {
        admin,
        token,
        old_cap: 0,
        new_cap: 900
    }));
}

#[test]
fn timelock_near_the_end_of_time_does_not_elapse() {
    let (admin, mut treasury) = setup();
    let token = address(10);
    treasury.propose_withdrawal_cap(u64::MAX, admin, token, 900).unwrap();
    assert_eq!(
        treasury.execute_withdrawal_cap(u64::MAX, admin, token),
        Err(TreasuryError::WithdrawalCapTimelockNotElapsed)
    );
}

#[test]
fn withdrawals_of_a_day_stay_within_cap() {
    let (admin, token, recipient, mut treasury) = with_cap(1_000);
    assert!(treasury.withdraw(NOW, false, admin, token, recipient, 600, 9_999).is_ok());
    assert_eq!(
        treasury.withdraw(NOW + DAY - 1, false, admin, token, recipient, 401, 9_999),
        Err(TreasuryError::WithdrawalRateLimitExceeded)
    );
    assert!(treasury.withdraw(NOW + DAY - 1, false, admin, token, recipient, 400, 9_999).is_ok());
    assert_eq!(
        treasury.withdraw(NOW + DAY - 1, false, admin, token, recipient, 1, 9_999),
        Err(TreasuryError::WithdrawalRateLimitExceeded)
    );
    // A day after the first withdrawal the epoch begins anew.
    assert!(treasury.withdraw(NOW + DAY, false, admin, token, recipient, 1_000, 9_999).is_ok());
    assert_eq!(treasury.account(&token).epoch_start, Some(NOW + DAY));
    assert_eq!(treasury.account(&token).epoch_withdrawn, 1_000);
}

#[test]
fn other_calls_do_not_widen_the_cap() {
    let (admin, token, recipient, mut treasury) = with_cap(1_000);
    let other = address(11);
    treasury.withdraw(NOW, false, admin, token, recipient, 600, 9_999).unwrap();
    treasury.whitelist_token(NOW, admin, token).unwrap();
    treasury.collect_fee(this(), token, 5_000).unwrap();
    treasury.propose_withdrawal_cap(NOW, admin, token, 50_000).unwrap();
    treasury.propose_withdrawal_cap(NOW - DAY, admin, other, 50_000).unwrap();
    treasury.execute_withdrawal_cap(NOW, admin, other).unwrap();
    treasury.declare_emergency(NOW, admin).unwrap();
    treasury.emergency_withdraw(NOW, admin, token, recipient, 9_399).unwrap();
    assert_eq!(
        treasury.withdraw(NOW + DAY - 1, false, admin, token, recipient, 401, 9_999),
        Err(TreasuryError::WithdrawalRateLimitExceeded)
    );
    assert!(treasury.withdraw(NOW + DAY - 1, false, admin, token, recipient, 400, 9_999).is_ok());
}

#[test]
fn failed_withdrawal_does_not_count_toward_cap() {
    let (admin, token, recipient, mut treasury) = with_cap(1_000);
    assert_eq!(
        treasury.withdraw(NOW, false, admin, token, recipient, 600, 599),
        Err(TreasuryError::InsufficientPoolBalance)
    );
    assert_eq!(treasury.account(&token).epoch_start, None);
    assert!(treasury.withdraw(NOW, false, admin, token, recipient, 1_000, 1_000).is_ok());
}

#[test]
fn caps_of_tokens_are_independent() {
    let (admin, token, recipient, mut treasury) = with_cap(100);
    let other = address(11);
    treasury.whitelist_token(NOW, admin, other).unwrap();
    assert!(treasury.withdraw(NOW, false, admin, token, recipient, 100, 500).is_ok());
    assert!(treasury.withdraw(NOW, false, admin, other, recipient, 500, 500).is_ok());
    assert_eq!(
        treasury.withdraw(NOW, false, admin, token, recipient, 1, 500),
        Err(TreasuryError::WithdrawalRateLimitExceeded)
    );
}

#[test]
fn epoch_total_that_overflows_is_refused() {
    let (admin, token, recipient, mut treasury) = with_cap(i128::MAX);
    let half = MAX_AMOUNT;
    assert!(treasury.withdraw(NOW, false, admin, token, recipient, half, i128::MAX).is_ok());
    assert!(treasury.withdraw(NOW, false, admin, token, recipient, half, i128::MAX).is_ok());
    assert_eq!(
        treasury.withdraw(NOW, false, admin, token, recipient, half, i128::MAX),
        Err(TreasuryError::ArithmeticOverflow)
    );
}

#[test]
fn amount_above_maximum_is_refused() {
    let (admin, token, recipient, mut treasury) = with_token();
    assert_eq!(MAX_AMOUNT, i128::MAX / 2);
    assert_eq!(
        treasury.withdraw(NOW, false, admin, token, recipient, MAX_AMOUNT + 1, i128::MAX),
        Err(TreasuryError::InvalidAmount)
    );
}

#[test]
fn withdrawal_reduces_the_ledger_but_not_below_its_range() {
    let (admin, token, recipient, mut treasury) = with_token();
    treasury.collect_fee(this(), token, 800).unwrap();
    treasury.withdraw(NOW, false, admin, token, recipient, 1_000, 5_000).unwrap();
    assert_eq!(treasury.get_collected(&token), -200);
    assert!(treasury
        .events
        .contains(&TreasuryEvent::FeeWithdrawn { admin, token, amount: 1_000 }));
    treasury.withdraw(NOW, false, admin, token, recipient, MAX_AMOUNT, i128::MAX).unwrap();
    treasury.withdraw(NOW, false, admin, token, recipient, MAX_AMOUNT, i128::MAX).unwrap();
    treasury.withdraw(NOW, false, admin, token, recipient, MAX_AMOUNT, i128::MAX).unwrap();
    assert_eq!(treasury.get_collected(&token), i128::MIN);
}

#[test]
fn withdrawal_without_ledger_leaves_it_unset() {
    let (admin, token, recipient, mut treasury) = with_token();
    treasury.withdraw(NOW, false, admin, token, recipient, 1_000, 5_000).unwrap();
    assert_eq!(treasury.account(&token).collected, None);
    assert_eq!(treasury.get_collected(&token), 0);
}

#[test]
fn pause_blocks_withdrawals_only() {
    let (admin, token, recipient, mut treasury) = with_token();
    // Without access control a pause is not seen.
    assert!(!treasury.is_paused(true));
    assert!(treasury.withdraw(NOW, true, admin, token, recipient, 1, 10).is_ok());
    treasury.set_access_control(NOW, admin, address(30)).unwrap();
    assert!(treasury.is_paused(true));
    assert!(!treasury.is_paused(false));
    assert_eq!(
        treasury.withdraw(NOW, true, admin, token, recipient, 1, 10),
        Err(TreasuryError::ProtocolPaused)
    );
    assert!(treasury.withdraw(NOW, false, admin, token, recipient, 1, 10).is_ok());
    assert!(treasury.collect_fee(this(), token, 5).is_ok());
    treasury.declare_emergency(NOW, admin).unwrap();
    assert!(treasury.emergency_withdraw(NOW, admin, token, recipient, 10).is_ok());
}

#[test]
fn emergency_must_be_declared() {
    let (admin, token, recipient, mut treasury) = with_token();
    assert!(!treasury.is_emergency_declared());
    assert_eq!(
        treasury.emergency_withdraw(NOW, admin, token, recipient, 10),
        Err(TreasuryError::EmergencyNotDeclared)
    );
    treasury.declare_emergency(NOW, admin).unwrap();
    assert!(treasury.is_emergency_declared());
    assert!(treasury.emergency_withdraw(NOW, admin, token, recipient, 10).is_ok());
    treasury.revoke_emergency(NOW, admin).unwrap();
    assert_eq!(
        treasury.emergency_withdraw(NOW, admin, token, recipient, 10),
        Err(TreasuryError::EmergencyNotDeclared)
    );
}

#[test]
fn reentry_during_a_withdrawal_is_refused() {
    let (admin, token, recipient, mut treasury) = with_token();
    treasury.declare_emergency(NOW, admin).unwrap();
    treasury.begin_withdraw(NOW, false, admin, token, 10).unwrap();
    assert_eq!(
        treasury.withdraw(NOW, false, admin, token, recipient, 10, 100),
        Err(TreasuryError::Reentrancy)
    );
    assert_eq!(
        treasury.emergency_withdraw(NOW, admin, token, recipient, 100),
        Err(TreasuryError::Reentrancy)
    );
    assert_eq!(
        treasury.settle_withdraw(token, recipient, 10, 100),
        Ok(Transfer { token, recipient, amount: 10 })
    );
    assert_eq!(
        treasury.begin_emergency_withdraw(admin, token),
        Err(TreasuryError::Reentrancy)
    );
    treasury.finish_withdraw(NOW, admin, token, 10);
    assert!(treasury.withdraw(NOW, false, admin, token, recipient, 10, 100).is_ok());
}

#[test]
fn calls_between_steps_keep_the_quota() {
    let (admin, token, recipient, mut treasury) = with_cap(1_000);
    treasury.declare_emergency(NOW, admin).unwrap();
    treasury.begin_withdraw(NOW, false, admin, token, 600).unwrap();
    // While the token is asked for the balance.
    treasury.collect_fee(this(), token, 7_000).unwrap();
    treasury.propose_withdrawal_cap(NOW, admin, token, 9_000).unwrap();
    assert!(treasury.withdraw(NOW, false, admin, token, recipient, 400, 9_999).is_err());
    assert_eq!(treasury.account(&token).epoch_withdrawn, 0);
    treasury.settle_withdraw(token, recipient, 600, 9_999).unwrap();
    // While the token makes the transfer.
    treasury.whitelist_token(NOW, admin, token).unwrap();
    assert!(treasury.emergency_withdraw(NOW, admin, token, recipient, 9_399).is_err());
    treasury.finish_withdraw(NOW, admin, token, 600);
    assert_eq!(treasury.account(&token).cap, 1_000);
    assert_eq!(treasury.account(&token).epoch_start, Some(NOW));
    assert_eq!(treasury.account(&token).epoch_withdrawn, 600);
    assert_eq!(treasury.get_collected(&token), 6_400);
    assert_eq!(
        treasury.withdraw(NOW, false, admin, token, recipient, 401, 9_999),
        Err(TreasuryError::WithdrawalRateLimitExceeded)
    );
    assert!(treasury.withdraw(NOW, false, admin, token, recipient, 400, 9_999).is_ok());
}

#[test]
fn admin_check_stands_alone() {
    let (admin, treasury) = setup();
    assert_eq!(treasury.require_admin(&admin), Ok(()));
    assert_eq!(treasury.require_admin(&address(2)), Err(TreasuryError::NotAdmin));
    assert_eq!(
        TreasuryContract::new().require_admin(&admin),
        Err(TreasuryError::NotInitialized)
    );
}

#[test]
fn settling_without_funds_frees_the_lock() {
    let (admin, token, recipient, mut treasury) = with_token();
    treasury.begin_withdraw(NOW, false, admin, token, 10).unwrap();
    assert_eq!(
        treasury.settle_withdraw(token, recipient, 10, 9),
        Err(TreasuryError::InsufficientPoolBalance)
    );
    assert!(treasury.begin_withdraw(NOW, false, admin, token, 10).is_ok());
}

#[test]
fn upgrade_waits_for_timelock() {
    let (admin, mut treasury) = setup();
    assert_eq!(treasury.execute_upgrade(NOW, admin), Err(TreasuryError::NoUpgradeProposed));
    treasury.propose_upgrade(NOW, admin, [5; 32]).unwrap();
    assert_eq!(
        treasury.execute_upgrade(NOW + UPGRADE_TIMELOCK_DELAY - 1, admin),
        Err(TreasuryError::UpgradeTimelockNotElapsed)
    );
    assert_eq!(treasury.execute_upgrade(NOW + UPGRADE_TIMELOCK_DELAY, admin), Ok([5; 32]));
    assert_eq!(
        treasury.execute_upgrade(NOW + UPGRADE_TIMELOCK_DELAY, admin),
        Err(TreasuryError::NoUpgradeProposed)
    );
}

#[test]
fn admin_is_known_after_initialization() {
    let (admin, treasury) = setup();
    assert_eq!(treasury.get_admin(), Ok(admin));
    let mut blank = TreasuryContract::new();
    assert_eq!(blank.get_admin(), Err(TreasuryError::NotInitialized));
    assert_eq!(blank.declare_emergency(NOW, admin), Err(TreasuryError::NotInitialized));
}

#[test]
fn every_admin_action_needs_the_admin() {
    let (_admin, mut treasury) = setup();
    let other = address(2);
    let token = address(10);
    assert_eq!(treasury.set_access_control(NOW, other, token), Err(TreasuryError::NotAdmin));
    assert_eq!(treasury.declare_emergency(NOW, other), Err(TreasuryError::NotAdmin));
    assert_eq!(treasury.revoke_emergency(NOW, other), Err(TreasuryError::NotAdmin));
    assert_eq!(
        treasury.execute_withdrawal_cap(NOW, other, token),
        Err(TreasuryError::NotAdmin)
    );
    assert_eq!(treasury.propose_upgrade(NOW, other, [0; 32]), Err(TreasuryError::NotAdmin));
    assert_eq!(treasury.execute_upgrade(NOW, other), Err(TreasuryError::NotAdmin));
    assert_eq!(treasury.log.total, 0);
}

#[test]
fn audit_log_lists_actions_newest_first() {
    let (admin, token, recipient, mut treasury) = with_token();
    treasury.set_fee_bps(NOW + 1, admin, 60).unwrap();
    treasury.withdraw(NOW + 2, false, admin, token, recipient, 1, 10).unwrap();
    let page = treasury.get_audit_log(0, 2);
    assert_eq!(page.len(), 2);
    assert_eq!(page[0].action, AdminActionType::Withdraw);
    assert_eq!(page[0].sequence, 2);
    assert_eq!(page[0].timestamp, NOW + 2);
    assert_eq!(page[0].actor, admin);
    assert_eq!(page[0].source, AuditSource::Treasury);
    assert_eq!(page[1].action, AdminActionType::SetFeeBps);
    let rest = treasury.get_audit_log(1, 2);
    assert_eq!(rest.len(), 1);
    assert_eq!(rest[0].action, AdminActionType::WhitelistToken);
    assert_eq!(rest[0].sequence, 0);
    assert_eq!(treasury.get_audit_log(2, 2), vec![]);
    assert_eq!(treasury.get_audit_log(u32::MAX, u32::MAX), vec![]);
    assert_eq!(
        treasury.events.last(),
        Some(&TreasuryEvent::AdminActionAudited { entry: page[0] })
    );
}

#[test]
fn audit_log_page_size_is_clamped() {
    let (admin, mut treasury) = setup();
    for i in 0..60u32 {
        treasury.set_fee_bps(NOW, admin, i).unwrap();
    }
    assert_eq!(treasury.get_audit_log(0, 0).len(), 1);
    assert_eq!(treasury.get_audit_log(0, 1_000).len(), 50);
    assert_eq!(treasury.get_audit_log(1, 1_000).len(), 10);
}

#[test]
fn audit_log_keeps_the_latest_entries() {
    let (admin, mut treasury) = setup();
    for i in 0..503u32 {
        treasury.set_fee_bps(NOW, admin, i).unwrap();
    }
    assert_eq!(treasury.log.total, 503);
    assert_eq!(treasury.log.head, 3);
    let newest = treasury.get_audit_log(0, 50);
    assert_eq!(newest[0].sequence, 502);
    assert_eq!(newest[49].sequence, 453);
    let oldest = treasury.get_audit_log(9, 50);
    assert_eq!(oldest.len(), 50);
    assert_eq!(oldest[49].sequence, 3);
    assert_eq!(treasury.get_audit_log(10, 50), vec![]);
}
