use kora::errors::KoraError;
use kora::price_book::{PriceData, MAX_STALENESS_SECS};
use kora::price_oracle::{PriceOracleContract, DEFAULT_MAX_PRICE_DEVIATION_BPS};
use kora::types::{Address, AddressKind, Symbol};
use soroban_sdk::Env;

const NOW: u64 = 1_000_000;

fn address(n: u8) -> Address {
    Address { kind: AddressKind::Account, payload: [n; 32] }
}

fn symbol(text: &str) -> Symbol {
    Symbol::new(text.as_bytes()).unwrap()
}

fn setup() -> (Env, Address, Address, PriceOracleContract) {
    let env = Env::default();
    let mut oracle = PriceOracleContract::new();
    let admin = address(1);
    let feeder = address(2);
    oracle.initialize(admin).unwrap();
    oracle.add_feeder(admin, feeder).unwrap();
    (env, admin, feeder, oracle)
}

#[test]
fn test_set_and_get_price() {
    let (env, _admin, feeder, mut oracle) = setup();
    let base = symbol("EURC");
    let quote = symbol("USDC");
    oracle.set_price(&env, NOW, feeder, base, quote, 11_000_000i128).unwrap();
    let data = oracle.get_price(&env, NOW, base, quote).unwrap();
    assert_eq!(data.price, 11_000_000i128);
}

#[test]
fn test_convert_same_currency() {
    let (env, _admin, _feeder, oracle) = setup();
    let sym = symbol("USDC");
    let result = oracle.convert(&env, NOW, 1_000_000i128, sym, sym);
    assert_eq!(result, Ok(1_000_000i128));
}

#[test]
fn test_convert_different_currency() {
    let (env, _admin, feeder, mut oracle) = setup();
    let eurc = symbol("EURC");
    let usdc = symbol("USDC");
    oracle.set_price(&env, NOW, feeder, eurc, usdc, 11_000_000i128).unwrap();
    let result = oracle.convert(&env, NOW, 10_000_000i128, eurc, usdc);
    assert_eq!(result, Ok(11_000_000i128));
}

#[test]
fn test_get_price_missing_fails() {
    let (env, _admin, _feeder, oracle) = setup();
    let result = oracle.get_price(&env, NOW, symbol("XLM"), symbol("USDC"));
    assert_eq!(result, Err(KoraError::InvalidAmount));
}

#[test]
fn test_stale_price_rejected() {
    let (env, _admin, feeder, mut oracle) = setup();
    let base = symbol("EURC");
    let quote = symbol("USDC");
    oracle.set_price(&env, NOW, feeder, base, quote, 11_000_000i128).unwrap();
    let result = oracle.get_price(&env, NOW + MAX_STALENESS_SECS + 1, base, quote);
    assert_eq!(result, Err(KoraError::InvalidAmount));
}

#[test]
fn test_register_and_resolve_token_symbol() {
    let (_env, admin, _feeder, mut oracle) = setup();
    let token = address(9);
    let usdc = symbol("USDC");
    oracle.register_token_symbol(admin, token, usdc).unwrap();
    assert_eq!(oracle.resolve_symbol(token), Ok(usdc));
}

#[test]
fn test_resolve_unregistered_token_fails() {
    let (_env, _admin, _feeder, oracle) = setup();
    assert_eq!(oracle.resolve_symbol(address(9)), Err(KoraError::InvalidAddress));
}

#[test]
fn test_convert_by_address() {
    let (env, admin, feeder, mut oracle) = setup();
    let eurc_token = address(8);
    let usdc_token = address(9);
    let eurc = symbol("EURC");
    let usdc = symbol("USDC");
    oracle.register_token_symbol(admin, eurc_token, eurc).unwrap();
    oracle.register_token_symbol(admin, usdc_token, usdc).unwrap();
    oracle.set_price(&env, NOW, feeder, eurc, usdc, 11_000_000i128).unwrap();
    let result = oracle.convert_by_address(&env, NOW, 10_000_000i128, eurc_token, usdc_token);
    assert_eq!(result, Ok(11_000_000i128));
}

#[test]
fn test_price_within_deviation_succeeds() {
    let (env, _admin, feeder, mut oracle) = setup();
    let base = symbol("EURC");
    let quote = symbol("USDC");
    oracle.set_price(&env, NOW, feeder, base, quote, 10_000_000i128).unwrap();
    let result = oracle.set_price(&env, NOW, feeder, base, quote, 10_500_000i128);
    assert!(result.is_ok());
}

#[test]
fn test_price_exceeding_deviation_rejected() {
    let (env, _admin, feeder, mut oracle) = setup();
    let base = symbol("EURC");
    let quote = symbol("USDC");
    oracle.set_price(&env, NOW, feeder, base, quote, 10_000_000i128).unwrap();
    let result = oracle.set_price(&env, NOW, feeder, base, quote, 11_500_000i128);
    assert_eq!(result, Err(KoraError::InvalidAmount));
}

#[test]
fn test_price_override_bypasses_deviation() {
    let (env, _admin, feeder, mut oracle) = setup();
    let base = symbol("EURC");
    let quote = symbol("USDC");
    oracle.set_price(&env, NOW, feeder, base, quote, 10_000_000i128).unwrap();
    let result = oracle.set_price_override(NOW, feeder, base, quote, 20_000_000i128);
    assert!(result.is_ok());
    let data = oracle.get_price(&env, NOW, base, quote).unwrap();
    assert_eq!(data.price, 20_000_000i128);
}

#[test]
fn test_set_max_deviation() {
    let (env, admin, feeder, mut oracle) = setup();
    let base = symbol("EURC");
    let quote = symbol("USDC");
    oracle.set_price(&env, NOW, feeder, base, quote, 10_000_000i128).unwrap();
    oracle.set_max_deviation(admin, 500u32).unwrap();
    let result = oracle.set_price(&env, NOW, feeder, base, quote, 10_700_000i128);
    assert_eq!(result, Err(KoraError::InvalidAmount));
}

#[test]
fn test_first_price_always_succeeds() {
    let (env, _admin, feeder, mut oracle) = setup();
    let base = symbol("EURC");
    let quote = symbol("USDC");
    let result = oracle.set_price(&env, NOW, feeder, base, quote, 100_000_000i128);
    assert!(result.is_ok());
}

#[test]
fn test_multiple_feeders_median_aggregation() {
    let (env, admin, feeder1, mut oracle) = setup();
    let feeder2 = address(3);
    let feeder3 = address(4);
    oracle.add_feeder(admin, feeder2).unwrap();
    oracle.add_feeder(admin, feeder3).unwrap();
    let base = symbol("EURC");
    let quote = symbol("USDC");
    oracle.set_price(&env, NOW, feeder1, base, quote, 10_000_000i128).unwrap();
    oracle.set_price(&env, NOW, feeder2, base, quote, 11_000_000i128).unwrap();
    oracle.set_price(&env, NOW, feeder3, base, quote, 12_000_000i128).unwrap();
    let data = oracle.get_price(&env, NOW, base, quote).unwrap();
    assert_eq!(data.price, 11_000_000i128);
}

#[test]
fn test_single_malicious_feeder_cannot_control_aggregate() {
    let (env, admin, feeder1, mut oracle) = setup();
    let malicious_feeder = address(3);
    oracle.add_feeder(admin, malicious_feeder).unwrap();
    let base = symbol("EURC");
    let quote = symbol("USDC");
    oracle.set_price(&env, NOW, feeder1, base, quote, 10_000_000i128).unwrap();
    oracle.set_price(&env, NOW, malicious_feeder, base, quote, 1_000_000i128).unwrap();
    let data = oracle.get_price(&env, NOW, base, quote).unwrap();
    assert!(data.price > 1_000_000i128);
    assert!(data.price < 10_000_000i128);
    assert_eq!(data.price, 5_500_000i128);
}

#[test]
fn test_add_and_remove_feeder() {
    let (env, admin, _feeder, mut oracle) = setup();
    let new_feeder = address(3);
    oracle.add_feeder(admin, new_feeder).unwrap();
    let base = symbol("EURC");
    let quote = symbol("USDC");
    let result = oracle.set_price(&env, NOW, new_feeder, base, quote, 10_000_000i128);
    assert!(result.is_ok());
    oracle.remove_feeder(admin, new_feeder).unwrap();
    let result2 = oracle.set_price(&env, NOW, new_feeder, base, quote, 11_000_000i128);
    assert_eq!(result2, Err(KoraError::RoleNotAssigned));
}

#[test]
fn test_multi_hop_conversion_via_base_currency() {
    let (env, admin, feeder, mut oracle) = setup();
    let eurc = symbol("EURC");
    let gbpc = symbol("GBPC");
    let usdc = symbol("USDC");
    oracle.set_base_currency(admin, usdc).unwrap();
    oracle.set_price(&env, NOW, feeder, eurc, usdc, 11_000_000i128).unwrap();
    oracle.set_price(&env, NOW, feeder, gbpc, usdc, 13_000_000i128).unwrap();
    let result = oracle.convert(&env, NOW, 10_000_000i128, eurc, gbpc);
    assert!(result.is_ok());
    let converted = result.unwrap();
    assert!(converted > 0);
    assert!(converted < 11_000_000i128);
    // 11M over 1.3, rounded down.
    assert_eq!(converted, 8_461_538i128);
}

#[test]
fn test_direct_pair_preferred_over_triangulation() {
    let (env, admin, feeder, mut oracle) = setup();
    let eurc = symbol("EURC");
    let gbpc = symbol("GBPC");
    let usdc = symbol("USDC");
    oracle.set_base_currency(admin, usdc).unwrap();
    oracle.set_price(&env, NOW, feeder, eurc, gbpc, 10_000_000i128).unwrap();
    oracle.set_price(&env, NOW, feeder, eurc, usdc, 11_000_000i128).unwrap();
    oracle.set_price(&env, NOW, feeder, gbpc, usdc, 11_000_000i128).unwrap();
    let converted = oracle.convert(&env, NOW, 10_000_000i128, eurc, gbpc).unwrap();
    assert_eq!(converted, 10_000_000i128);
}

#[test]
fn test_triangulation_fails_without_base_currency() {
    let (env, _admin, feeder, mut oracle) = setup();
    let eurc = symbol("EURC");
    let gbpc = symbol("GBPC");
    let usdc = symbol("USDC");
    oracle.set_price(&env, NOW, feeder, eurc, usdc, 11_000_000i128).unwrap();
    oracle.set_price(&env, NOW, feeder, gbpc, usdc, 13_000_000i128).unwrap();
    let result = oracle.convert(&env, NOW, 10_000_000i128, eurc, gbpc);
    assert_eq!(result, Err(KoraError::InvalidAmount));
}

#[test]
fn test_triangulation_both_legs_checked_for_staleness() {
    let (env, admin, feeder, mut oracle) = setup();
    let eurc = symbol("EURC");
    let gbpc = symbol("GBPC");
    let usdc = symbol("USDC");
    oracle.set_base_currency(admin, usdc).unwrap();
    oracle.set_price(&env, NOW, feeder, eurc, usdc, 11_000_000i128).unwrap();
    oracle.set_price(&env, NOW, feeder, gbpc, usdc, 13_000_000i128).unwrap();
    let later = NOW + MAX_STALENESS_SECS + 1;
    let result = oracle.convert(&env, later, 10_000_000i128, eurc, gbpc);
    assert_eq!(result, Err(KoraError::InvalidAmount));
}

#[test]
fn triangulation_needs_each_leg_fresh() {
    let (env, admin, feeder, mut oracle) = setup();
    let eurc = symbol("EURC");
    let gbpc = symbol("GBPC");
    let usdc = symbol("USDC");
    oracle.set_base_currency(admin, usdc).unwrap();
    oracle.set_price(&env, NOW, feeder, eurc, usdc, 11_000_000i128).unwrap();
    oracle.set_price(&env, NOW + 10, feeder, gbpc, usdc, 13_000_000i128).unwrap();
    let both_fresh = NOW + MAX_STALENESS_SECS;
    assert_eq!(oracle.convert(&env, both_fresh, 10_000_000, eurc, gbpc), Ok(8_461_538));
    let one_stale = NOW + MAX_STALENESS_SECS + 1;
    assert_eq!(
        oracle.convert(&env, one_stale, 10_000_000, eurc, gbpc),
        Err(KoraError::InvalidAmount)
    );
    oracle.set_price(&env, one_stale, feeder, eurc, usdc, 11_000_000i128).unwrap();
    let other_stale = NOW + 10 + MAX_STALENESS_SECS + 1;
    assert_eq!(
        oracle.convert(&env, other_stale, 10_000_000, eurc, gbpc),
        Err(KoraError::InvalidAmount)
    );
}

#[test]
fn triangulation_goes_by_price_of_base_currency_first() {
    let (env, admin, feeder, mut oracle) = setup();
    let eurc = symbol("EURC");
    let gbpc = symbol("GBPC");
    let usdc = symbol("USDC");
    oracle.set_base_currency(admin, usdc).unwrap();
    oracle.set_price(&env, NOW, feeder, eurc, usdc, 11_000_000).unwrap();
    oracle.set_price(&env, NOW, feeder, gbpc, usdc, 13_000_000).unwrap();
    oracle.set_price(&env, NOW, feeder, usdc, gbpc, 8_000_000).unwrap();
    assert_eq!(oracle.convert(&env, NOW, 10_000_000, eurc, gbpc), Ok(8_800_000));
}

#[test]
fn triangulation_to_or_from_base_currency_is_refused() {
    let (env, admin, feeder, mut oracle) = setup();
    let eurc = symbol("EURC");
    let usdc = symbol("USDC");
    oracle.set_base_currency(admin, usdc).unwrap();
    oracle.set_price(&env, NOW, feeder, eurc, usdc, 11_000_000).unwrap();
    assert_eq!(oracle.convert(&env, NOW, 10, usdc, eurc), Err(KoraError::InvalidAmount));
    assert_eq!(
        oracle.convert(&env, NOW, 10, symbol("XLM"), usdc),
        Err(KoraError::InvalidAmount)
    );
}

#[test]
fn conversion_refuses_overflow_and_nothing() {
    let (env, _admin, feeder, mut oracle) = setup();
    let eurc = symbol("EURC");
    let usdc = symbol("USDC");
    oracle.set_price(&env, NOW, feeder, eurc, usdc, 11_000_000).unwrap();
    assert_eq!(
        oracle.convert(&env, NOW, i128::MAX, eurc, usdc),
        Err(KoraError::ArithmeticOverflow)
    );
    assert_eq!(oracle.convert(&env, NOW, 0, eurc, usdc), Err(KoraError::InvalidAmount));
    assert_eq!(oracle.convert(&env, NOW, -5, eurc, usdc), Err(KoraError::InvalidAmount));
    assert_eq!(oracle.convert(&env, NOW, 3, eurc, usdc), Ok(3));
}

#[test]
fn initialization_happens_once() {
    let mut oracle = PriceOracleContract::new();
    assert_eq!(oracle.add_feeder(address(1), address(2)), Err(KoraError::NotInitialized));
    assert_eq!(oracle.get_max_deviation(), DEFAULT_MAX_PRICE_DEVIATION_BPS);
    oracle.initialize(address(1)).unwrap();
    assert_eq!(oracle.initialize(address(3)), Err(KoraError::AlreadyInitialized));
    assert_eq!(oracle.add_feeder(address(3), address(2)), Err(KoraError::NotAdmin));
    assert_eq!(oracle.get_max_deviation(), 1000);
}

#[test]
fn only_admin_administers() {
    let (_env, _admin, feeder, mut oracle) = setup();
    let usdc = symbol("USDC");
    assert_eq!(oracle.add_feeder(feeder, feeder), Err(KoraError::NotAdmin));
    assert_eq!(oracle.remove_feeder(feeder, feeder), Err(KoraError::NotAdmin));
    assert_eq!(oracle.set_base_currency(feeder, usdc), Err(KoraError::NotAdmin));
    assert_eq!(oracle.set_max_deviation(feeder, 1), Err(KoraError::NotAdmin));
    assert_eq!(
        oracle.register_token_symbol(feeder, address(5), usdc),
        Err(KoraError::NotAdmin)
    );
}

#[test]
fn prices_must_be_positive() {
    let (env, _admin, feeder, mut oracle) = setup();
    let base = symbol("EURC");
    let quote = symbol("USDC");
    assert_eq!(
        oracle.set_price(&env, NOW, feeder, base, quote, 0),
        Err(KoraError::InvalidAmount)
    );
    assert_eq!(
        oracle.set_price_override(NOW, feeder, base, quote, -1),
        Err(KoraError::InvalidAmount)
    );
    assert_eq!(
        oracle.set_price_override(NOW, address(7), base, quote, 1),
        Err(KoraError::RoleNotAssigned)
    );
}

#[test]
fn deviation_limit_is_inclusive() {
    let (env, _admin, feeder, mut oracle) = setup();
    let base = symbol("EURC");
    let quote = symbol("USDC");
    oracle.set_price(&env, NOW, feeder, base, quote, 10_000_000).unwrap();
    // 1 001 basis points up or down.
    assert_eq!(
        oracle.set_price(&env, NOW, feeder, base, quote, 11_001_000),
        Err(KoraError::InvalidAmount)
    );
    assert_eq!(
        oracle.set_price(&env, NOW, feeder, base, quote, 8_999_000),
        Err(KoraError::InvalidAmount)
    );
    assert_eq!(oracle.set_price(&env, NOW, feeder, base, quote, 11_000_000), Ok(()));
    assert_eq!(oracle.set_price(&env, NOW, feeder, base, quote, 9_900_000), Ok(()));
}

#[test]
fn deviation_of_a_huge_price_overflows() {
    let (env, _admin, feeder, mut oracle) = setup();
    let base = symbol("EURC");
    let quote = symbol("USDC");
    oracle.set_price(&env, NOW, feeder, base, quote, 1).unwrap();
    assert_eq!(
        oracle.set_price(&env, NOW, feeder, base, quote, i128::MAX),
        Err(KoraError::ArithmeticOverflow)
    );
}

#[test]
fn deviation_is_not_checked_against_stale_prices() {
    let (env, _admin, feeder, mut oracle) = setup();
    let base = symbol("EURC");
    let quote = symbol("USDC");
    oracle.set_price(&env, NOW, feeder, base, quote, 10_000_000).unwrap();
    let later = NOW + MAX_STALENESS_SECS + 1;
    assert_eq!(oracle.set_price(&env, later, feeder, base, quote, 90_000_000), Ok(()));
    assert_eq!(
        oracle.get_price(&env, later, base, quote),
        Ok(PriceData { price: 90_000_000, timestamp: later })
    );
}

#[test]
fn nothing_limits_a_price_without_a_fresh_one() {
    let (env, admin, feeder, mut oracle) = setup();
    let base = symbol("EURC");
    let quote = symbol("USDC");
    oracle.set_max_deviation(admin, 0).unwrap();
    oracle.set_price(&env, NOW, feeder, base, quote, 10_000_000).unwrap();
    assert_eq!(
        oracle.set_price(&env, NOW, feeder, base, quote, 10_001_000),
        Err(KoraError::InvalidAmount)
    );
    let later = NOW + MAX_STALENESS_SECS + 1;
    assert_eq!(oracle.set_price(&env, later, feeder, base, quote, 1), Ok(()));
}

#[test]
fn sole_price_is_read_back_while_it_is_fresh() {
    let (env, _admin, feeder, mut oracle) = setup();
    let base = symbol("EURC");
    let quote = symbol("USDC");
    oracle.set_price(&env, NOW, feeder, base, quote, 10_000_000).unwrap();
    assert_eq!(
        oracle.get_price(&env, NOW + MAX_STALENESS_SECS, base, quote),
        Ok(PriceData { price: 10_000_000, timestamp: NOW })
    );
}

#[test]
fn aggregate_carries_oldest_fresh_timestamp() {
    let (env, admin, feeder1, mut oracle) = setup();
    let feeder2 = address(3);
    oracle.add_feeder(admin, feeder2).unwrap();
    let base = symbol("EURC");
    let quote = symbol("USDC");
    oracle.set_price(&env, NOW, feeder1, base, quote, 10_000_000).unwrap();
    oracle.set_price(&env, NOW + 100, feeder2, base, quote, 10_400_001).unwrap();
    assert_eq!(
        oracle.get_price(&env, NOW + 200, base, quote),
        Ok(PriceData { price: 10_200_000, timestamp: NOW })
    );
    // The first price is stale by then.
    assert_eq!(
        oracle.get_price(&env, NOW + MAX_STALENESS_SECS + 50, base, quote),
        Ok(PriceData { price: 10_400_001, timestamp: NOW + 100 })
    );
}

#[test]
fn pairs_do_not_mix() {
    let (env, _admin, feeder, mut oracle) = setup();
    let eurc = symbol("EURC");
    let usdc = symbol("USDC");
    oracle.set_price(&env, NOW, feeder, eurc, usdc, 11_000_000).unwrap();
    assert_eq!(oracle.get_price(&env, NOW, usdc, eurc), Err(KoraError::InvalidAmount));
    oracle.set_price(&env, NOW, feeder, usdc, eurc, 9_000_000).unwrap();
    assert_eq!(oracle.get_price(&env, NOW, eurc, usdc).unwrap().price, 11_000_000);
    assert_eq!(oracle.book.submissions().len(), 2);
}

#[test]
fn conversion_by_address_needs_both_symbols() {
    let (env, admin, _feeder, mut oracle) = setup();
    oracle.register_token_symbol(admin, address(8), symbol("EURC")).unwrap();
    assert_eq!(
        oracle.convert_by_address(&env, NOW, 5, address(8), address(9)),
        Err(KoraError::InvalidAddress)
    );
    assert_eq!(
        oracle.convert_by_address(&env, NOW, 5, address(9), address(8)),
        Err(KoraError::InvalidAddress)
    );
    assert_eq!(oracle.convert_by_address(&env, NOW, 5, address(8), address(8)), Ok(5));
}

#[test]
fn median_of_prices() {
    let env = Env::default();
    let list = |items: &[i128]| soroban_sdk::Vec::from_slice(&env, items);
    assert_eq!(PriceOracleContract::calculate_median(&list(&[])), 0);
    assert_eq!(PriceOracleContract::calculate_median(&list(&[7])), 7);
    assert_eq!(PriceOracleContract::calculate_median(&list(&[9, 1, 5])), 5);
    assert_eq!(PriceOracleContract::calculate_median(&list(&[9, 1, 5, 2])), 3);
    assert_eq!(PriceOracleContract::calculate_median(&list(&[-3, -4])), -3);
    assert_eq!(
        PriceOracleContract::calculate_median(&list(&[i128::MAX, i128::MAX - 2])),
        i128::MAX - 1
    );
    assert_eq!(
        PriceOracleContract::calculate_median(&list(&[i128::MIN, i128::MIN + 2])),
        i128::MIN + 1
    );
}

#[test]
fn median_leaves_its_argument_alone() {
    let env = Env::default();
    let prices = soroban_sdk::Vec::from_slice(&env, &[3i128, 1, 2]);
    assert_eq!(PriceOracleContract::calculate_median(&prices), 2);
    assert_eq!(prices, soroban_sdk::Vec::from_slice(&env, &[3i128, 1, 2]));
}

#[test]
fn majority_of_feeders_holds_the_price() {
    let (env, admin, feeder1, mut oracle) = setup();
    let feeder2 = address(3);
    let feeder3 = address(4);
    oracle.add_feeder(admin, feeder2).unwrap();
    oracle.add_feeder(admin, feeder3).unwrap();
    let base = symbol("EURC");
    let quote = symbol("USDC");
    oracle.set_price(&env, NOW, feeder1, base, quote, 10_000_000).unwrap();
    oracle.set_price(&env, NOW, feeder2, base, quote, 10_100_000).unwrap();
    oracle.set_price_override(NOW, feeder3, base, quote, i128::MAX).unwrap();
    assert_eq!(oracle.get_price(&env, NOW, base, quote).unwrap().price, 10_100_000);
}

#[test]
fn prices_of_a_removed_feeder_still_count() {
    let (env, admin, feeder, mut oracle) = setup();
    let base = symbol("EURC");
    let quote = symbol("USDC");
    oracle.set_price(&env, NOW, feeder, base, quote, 10_000_000).unwrap();
    oracle.remove_feeder(admin, feeder).unwrap();
    assert_eq!(oracle.get_price(&env, NOW, base, quote).unwrap().price, 10_000_000);
}

#[test]
fn symbols_are_checked() {
    assert!(Symbol::new("a_b_C_9".as_bytes()).is_some());
    assert!(Symbol::new("".as_bytes()).is_some());
    assert!(Symbol::new("EUR-C".as_bytes()).is_none());
    assert!(Symbol::new(&[b'x'; 32]).is_some());
    assert!(Symbol::new(&[b'x'; 33]).is_none());
    assert_eq!(symbol("EURC").to_bytes(), b"EURC".to_vec());
    assert!(symbol("EURC").reads_as(&symbol("EURC")));
    assert!(!symbol("EUR").reads_as(&symbol("EURC")));
}
