use kora::audit::{chain_checksum, encode_entry, AuditEntry, MAX_AUDIT_LOG_SIZE};
use kora::errors::KoraError;
use kora::events::{
    adm_audit, admin_transferred, audit_checkpoint, fee_collected, fee_withdrawn,
    invoice_created, invoice_defaulted, invoice_funded, invoice_listed, invoice_repaid,
    listing_cancelled, listing_expired, protocol_paused, protocol_unpaused, repayment_made,
    yield_distributed, EventKind, EventLog, EventValue, Payload,
};
use kora::treasury::TreasuryError;
use kora::types::{Address, AddressKind};
use kora::validation::{
    is_timelock_elapsed, require_non_negative_amount, require_not_self, require_valid_fee_bps,
    require_within_max_amount, MAX_AMOUNT,
};
use soroban_sdk::{Bytes, Env};

fn account(n: u8) -> Address {
    Address { kind: AddressKind::Account, payload: [n; 32] }
}

fn contract(n: u8) -> Address {
    Address { kind: AddressKind::Contract, payload: [n; 32] }
}

fn entry(actor: Address) -> AuditEntry {
    AuditEntry { action: b"pause".to_vec(), actor, timestamp: 0x0102_0304, sequence: 7 }
}

#[test]
fn checksum_is_digest_of_previous_checksum_and_entry() {
    let env = Env::default();
    let prev = [9u8; 32];
    let e = entry(account(3));
    let mut buf = Bytes::from_array(&env, &prev);
    buf.extend_from_array(&7u64.to_le_bytes());
    buf.extend_from_array(&0x0102_0304u64.to_le_bytes());
    buf.extend_from_array(&[3; 32]);
    assert_eq!(encode_entry(&prev, &e), buf.to_alloc_vec());
    assert_eq!(chain_checksum(&env, &prev, &e), env.crypto().sha256(&buf).to_array());
}

#[test]
fn checksum_of_a_known_entry() {
    let env = Env::default();
    let e = AuditEntry { action: vec![], actor: contract(0), timestamp: 0, sequence: 0 };
    assert_eq!(encode_entry(&[0; 32], &e), vec![0; 80]);
    // The SHA-256 digest of eighty zero bytes.
    let digest = [
        0x5b, 0x6f, 0xb5, 0x8e, 0x61, 0xfa, 0x47, 0x59,
        0x39, 0x76, 0x7d, 0x68, 0xa4, 0x46, 0xf9, 0x7f,
        0x1b, 0xff, 0x02, 0xc0, 0xe5, 0x93, 0x5a, 0x3e,
        0xa8, 0xbb, 0x51, 0xe6, 0x51, 0x57, 0x83, 0xd8,
    ];
    assert_eq!(chain_checksum(&env, &[0; 32], &e), digest);
    let e = AuditEntry { action: b"ab".to_vec(), actor: account(6), timestamp: 1, sequence: 2 };
    let bytes = encode_entry(&[4; 32], &e);
    assert_eq!(bytes.len(), 80);
    assert_eq!(bytes[0..32], [4; 32]);
    assert_eq!(bytes[32..40], [2, 0, 0, 0, 0, 0, 0, 0]);
    assert_eq!(bytes[40..48], [1, 0, 0, 0, 0, 0, 0, 0]);
    assert_eq!(bytes[48..80], [6; 32]);
}

#[test]
fn checksum_depends_on_sequence_timestamp_and_actor() {
    let env = Env::default();
    let base = chain_checksum(&env, &[0; 32], &entry(account(1)));
    assert_ne!(base, chain_checksum(&env, &[1; 32], &entry(account(1))));
    assert_ne!(base, chain_checksum(&env, &[0; 32], &entry(account(2))));
    let mut e = entry(account(1));
    e.sequence = 8;
    assert_ne!(base, chain_checksum(&env, &[0; 32], &e));
    let mut e = entry(account(1));
    e.timestamp = 0;
    assert_ne!(base, chain_checksum(&env, &[0; 32], &e));
    let mut e = entry(account(1));
    e.action = b"unpause".to_vec();
    assert_eq!(base, chain_checksum(&env, &[0; 32], &e));
    assert_eq!(base, chain_checksum(&env, &[0; 32], &entry(account(1))));
}

#[test]
fn audit_log_size() {
    assert_eq!(MAX_AUDIT_LOG_SIZE, 500);
}

#[test]
fn error_codes() {
    assert_eq!(KoraError::Unauthorized.code(), 1);
    assert_eq!(KoraError::NotAdmin.code(), 2);
    assert_eq!(KoraError::ProtocolPaused.code(), 4);
    assert_eq!(KoraError::InvoiceNotFound.code(), 10);
    assert_eq!(KoraError::InvoiceAlreadyExists.code(), 11);
    assert_eq!(KoraError::InvalidInvoiceStatus.code(), 12);
    assert_eq!(KoraError::InvoiceExpired.code(), 13);
    assert_eq!(KoraError::InvalidAmount.code(), 14);
    assert_eq!(KoraError::InvalidDueDate.code(), 15);
    assert_eq!(KoraError::InvalidRiskScore.code(), 16);
    assert_eq!(KoraError::InvoiceFrozen.code(), 17);
    assert_eq!(KoraError::InvalidCid.code(), 18);
    assert_eq!(KoraError::NoContribution.code(), 95);
    assert_eq!(KoraError::NotInitialized.code(), 96);
    assert_eq!(KoraError::EmptyBytes.code(), 97);
    assert_eq!(KoraError::Reentrancy.code(), 98);
    assert!(KoraError::NotAdmin < KoraError::Reentrancy);
}

#[test]
fn treasury_error_codes() {
    assert_eq!(TreasuryError::AlreadyInitialized.code(), 1);
    assert_eq!(TreasuryError::ArithmeticOverflow.code(), 2);
    assert_eq!(TreasuryError::InsufficientPoolBalance.code(), 3);
    assert_eq!(TreasuryError::InvalidAddress.code(), 4);
    assert_eq!(TreasuryError::InvalidAmount.code(), 5);
    assert_eq!(TreasuryError::InvalidFeeRate.code(), 6);
    assert_eq!(TreasuryError::NoCapChangeProposed.code(), 7);
    assert_eq!(TreasuryError::NoUpgradeProposed.code(), 8);
    assert_eq!(TreasuryError::NotAdmin.code(), 9);
    assert_eq!(TreasuryError::NotInitialized.code(), 10);
    assert_eq!(TreasuryError::Reentrancy.code(), 11);
    assert_eq!(TreasuryError::TokenNotWhitelisted.code(), 12);
    assert_eq!(TreasuryError::UpgradeTimelockNotElapsed.code(), 13);
    assert_eq!(TreasuryError::WithdrawalCapTimelockNotElapsed.code(), 14);
    assert_eq!(TreasuryError::WithdrawalRateLimitExceeded.code(), 15);
    assert_eq!(TreasuryError::ProtocolPaused.code(), 16);
    assert_eq!(TreasuryError::EmergencyNotDeclared.code(), 17);
}

#[test]
fn shared_errors_map_to_treasury_errors() {
    assert_eq!(TreasuryError::from(KoraError::InvalidAmount), TreasuryError::InvalidAmount);
    assert_eq!(TreasuryError::from(KoraError::InvalidAddress), TreasuryError::InvalidAddress);
    assert_eq!(TreasuryError::from(KoraError::InvalidFeeRate), TreasuryError::InvalidFeeRate);
    assert_eq!(
        TreasuryError::from(KoraError::ArithmeticOverflow),
        TreasuryError::ArithmeticOverflow
    );
    assert_eq!(TreasuryError::from(KoraError::Reentrancy), TreasuryError::Reentrancy);
    assert_eq!(TreasuryError::from(KoraError::EmptyString), TreasuryError::InvalidAmount);
}

#[test]
fn arguments_are_validated() {
    assert_eq!(require_valid_fee_bps(10_000), Ok(()));
    assert_eq!(require_valid_fee_bps(10_001), Err(KoraError::InvalidFeeRate));
    assert_eq!(require_within_max_amount(MAX_AMOUNT), Ok(()));
    assert_eq!(require_within_max_amount(MAX_AMOUNT + 1), Err(KoraError::InvalidAmount));
    assert_eq!(require_non_negative_amount(0), Ok(()));
    assert_eq!(require_non_negative_amount(-1), Err(KoraError::InvalidAmount));
    assert_eq!(require_not_self(&contract(1), &account(1)), Ok(()));
    assert_eq!(require_not_self(&contract(1), &contract(1)), Err(KoraError::InvalidAddress));
    assert!(is_timelock_elapsed(86_400, 0));
    assert!(!is_timelock_elapsed(86_399, 0));
    assert!(!is_timelock_elapsed(0, 1));
}

fn tuple(log: &EventLog, i: usize) -> (&'static str, &Vec<EventValue>) {
    match &log.events[i].payload {
        Payload::Tuple(values) => (log.events[i].topic, values),
        Payload::Single(_) => panic!("expected a tuple"),
    }
}

#[test]
fn invoice_events() {
    let mut log = EventLog::new();
    let a = account(1);
    invoice_created(&mut log, 5, &a, 100);
    invoice_listed(&mut log, 5, &a, 90);
    invoice_funded(&mut log, 5, &a, 80);
    invoice_repaid(&mut log, 5, &a, 70);
    invoice_defaulted(&mut log, 5, &a);
    repayment_made(&mut log, 5, &a, 60);
    yield_distributed(&mut log, 5, &a, 50);
    let triple = |amount: i128| {
        vec![EventValue::U64(5), EventValue::Address(a), EventValue::I128(amount)]
    };
    assert_eq!(tuple(&log, 0), ("INV_CRT", &triple(100)));
    assert_eq!(tuple(&log, 1), ("INV_LST", &triple(90)));
    assert_eq!(tuple(&log, 2), ("INV_FND", &triple(80)));
    assert_eq!(tuple(&log, 3), ("INV_RPD", &triple(70)));
    assert_eq!(
        tuple(&log, 4),
        ("INV_DFT", &vec![EventValue::U64(5), EventValue::Address(a)])
    );
    assert_eq!(tuple(&log, 5), ("REPAY", &triple(60)));
    assert_eq!(tuple(&log, 6), ("YIELD", &triple(50)));
    assert_eq!(log.events.len(), 7);
}

#[test]
fn listing_and_fee_events() {
    let mut log = EventLog::new();
    let a = account(1);
    listing_cancelled(&mut log, 5, &a, 77);
    listing_expired(&mut log, 6, &a, 78);
    fee_collected(&mut log, 7, 40, &a);
    fee_withdrawn(&mut log, &a, 30);
    assert_eq!(
        tuple(&log, 0),
        ("LST_CXL", &vec![EventValue::U64(5), EventValue::Address(a), EventValue::U64(77)])
    );
    assert_eq!(
        tuple(&log, 1),
        ("LST_EXP", &vec![EventValue::U64(6), EventValue::Address(a), EventValue::U64(78)])
    );
    assert_eq!(
        tuple(&log, 2),
        ("FEE_COL", &vec![EventValue::U64(7), EventValue::I128(40), EventValue::Address(a)])
    );
    assert_eq!(
        tuple(&log, 3),
        ("FEE_WTH", &vec![EventValue::Address(a), EventValue::I128(30)])
    );
}

#[test]
fn admin_events() {
    let mut log = EventLog::new();
    let a = account(1);
    protocol_paused(&mut log, &a, 9);
    protocol_unpaused(&mut log, &a, 10);
    admin_transferred(&mut log, &a);
    adm_audit(&mut log, 3, b"pause".to_vec(), &a, 11);
    audit_checkpoint(&mut log, 500, [8; 32], b"pause".to_vec(), &a, 12, 4);
    assert_eq!(
        tuple(&log, 0),
        ("PAUSED", &vec![EventValue::Address(a), EventValue::U64(9)])
    );
    assert_eq!(
        tuple(&log, 1),
        ("UNPAUSED", &vec![EventValue::Address(a), EventValue::U64(10)])
    );
    assert_eq!(log.events[2].topic, "ADM_TRF");
    assert_eq!(log.events[2].payload, Payload::Single(EventValue::Address(a)));
    assert_eq!(
        tuple(&log, 3),
        (
            "ADM_AUDIT",
            &vec![
                EventValue::U64(3),
                EventValue::Text(b"pause".to_vec()),
                EventValue::Address(a),
                EventValue::U64(11)
            ]
        )
    );
    assert_eq!(
        tuple(&log, 4),
        (
            "AUDT_CHK",
            &vec![
                EventValue::U64(500),
                EventValue::Digest([8; 32]),
                EventValue::Text(b"pause".to_vec()),
                EventValue::Address(a),
                EventValue::U64(12),
                EventValue::U64(4)
            ]
        )
    );
}

#[test]
fn event_topics() {
    assert_eq!(EventKind::InvoiceCreated.topic(), "INV_CRT");
    assert_eq!(EventKind::AuditCheckpoint.topic(), "AUDT_CHK");
}
