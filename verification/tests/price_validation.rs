use anchor_lang::Discriminator;
use oracle_hooks::account::AccountHandle;
use oracle_hooks::address::Address;
use oracle_hooks::oracle::FeedValue;
use oracle_hooks::price::context::TransferHook;
use oracle_hooks::price::error::PriceValidationError;
use oracle_hooks::price::state::PriceValidationState;
use oracle_hooks::price::validation::{
    check_amount, check_amounts_fit, check_verdict_fits, checked_fallback, checked_transfer_hook,
    fallback, price_of, transfer_hook, validate_price, BASIS_POINTS, PRICE_ACCOUNTS,
    UNITS_PER_TOKEN,
};
use switchboard_v2::{AggregatorAccountData, SwitchboardDecimal};

const EXECUTE_TAG: [u8; 8] = [105, 37, 101, 197, 75, 251, 102, 26];

fn address(first: u8) -> Address {
    let mut bytes = [0u8; 32];
    for (i, byte) in bytes.iter_mut().enumerate() {
        *byte = first.wrapping_add(i as u8);
    }
    Address { bytes }
}

fn feed_bytes(mantissa: i128, scale: u32) -> Vec<u8> {
    let mut account: AggregatorAccountData = bytemuck::Zeroable::zeroed();
    account.min_oracle_results = 1;
    account.latest_confirmed_round.num_success = 1;
    account.latest_confirmed_round.result = SwitchboardDecimal::new(mantissa, scale);
    let mut data = AggregatorAccountData::discriminator().to_vec();
    data.extend_from_slice(bytemuck::bytes_of(&account));
    data
}

fn execute(amount: u64) -> Vec<u8> {
    let mut data = EXECUTE_TAG.to_vec();
    data.extend_from_slice(&amount.to_le_bytes());
    data
}

fn reading(mantissa: i128, scale: u32) -> Option<FeedValue> {
    Some(FeedValue { mantissa, scale })
}

fn state(tolerance: u64, active: bool) -> PriceValidationState {
    PriceValidationState {
        product_price_feed_pubkey: address(20),
        token_usd_price_feed_pubkey: address(21),
        tolerance_basis_points: tolerance,
        is_price_validation_active: active,
    }
}

fn context(tolerance: u64, active: bool, product: Vec<u8>, token: Vec<u8>) -> TransferHook {
    TransferHook {
        state: state(tolerance, active),
        product_price_feed: AccountHandle { key: address(20), data: product },
        token_usd_price_feed: AccountHandle { key: address(21), data: token },
    }
}

fn accounts(tolerance: u64, active: bool, product: Vec<u8>, token: Vec<u8>) -> Vec<AccountHandle> {
    let mut stored = vec![0x5au8; 81];
    assert!(state(tolerance, active).pack(&mut stored));
    vec![
        AccountHandle { key: address(100), data: vec![1] },
        AccountHandle { key: address(101), data: vec![2] },
        AccountHandle { key: address(102), data: vec![3] },
        AccountHandle { key: address(103), data: vec![] },
        AccountHandle { key: address(104), data: vec![4] },
        AccountHandle { key: address(105), data: stored },
        AccountHandle { key: address(20), data: product },
        AccountHandle { key: address(21), data: token },
    ]
}

#[test]
fn the_band_lies_around_the_expected_amount() {
    assert_eq!((UNITS_PER_TOKEN, BASIS_POINTS), (1_000_000_000, 10_000));
    assert_eq!(check_amount(1000, 1, 2000, 900_000_000_000), Ok(()));
    assert_eq!(check_amount(1000, 1, 2000, 700_000_000_000), Err(PriceValidationError::PriceOutOfRange));
    assert_eq!(check_amount(1000, 1, 2000, 800_000_000_000), Ok(()));
    assert_eq!(check_amount(1000, 1, 2000, 799_999_999_999), Err(PriceValidationError::PriceOutOfRange));
    assert_eq!(check_amount(1000, 1, 2000, 1_000_000_000_000), Ok(()));
    assert_eq!(check_amount(1000, 1, 2000, 1_200_000_000_000), Ok(()));
    assert_eq!(check_amount(1000, 1, 2000, 1_200_000_000_001), Err(PriceValidationError::PriceOutOfRange));
    assert_eq!(check_amount(1000, 1, 2000, 0), Err(PriceValidationError::PriceOutOfRange));
    assert_eq!(check_amount(1000, 1, 2000, u64::MAX), Err(PriceValidationError::PriceOutOfRange));
}

#[test]
fn the_expected_amount_is_rounded_down() {
    assert_eq!(check_amount(10, 3, 0, 3_333_333_333), Ok(()));
    assert_eq!(check_amount(10, 3, 0, 3_333_333_334), Err(PriceValidationError::PriceOutOfRange));
    assert_eq!(check_amount(10, 3, 0, 3_333_333_332), Err(PriceValidationError::PriceOutOfRange));
    assert_eq!(check_amount(1, 2_000_000_000, 0, 0), Ok(()));
    assert_eq!(check_amount(1, 2_000_000_000, 10_000, 1), Err(PriceValidationError::PriceOutOfRange));
    assert_eq!(check_amount(0, 5, 10_000, 0), Ok(()));
    assert_eq!(check_amount(0, 5, 10_000, 1), Err(PriceValidationError::PriceOutOfRange));
}

#[test]
fn the_deviation_is_rounded_down() {
    assert_eq!(check_amount(1, 100_000_000, 1_999, 9), Ok(()));
    assert_eq!(check_amount(1, 100_000_000, 1_999, 8), Err(PriceValidationError::PriceOutOfRange));
    assert_eq!(check_amount(1, 100_000_000, 1_999, 11), Ok(()));
    assert_eq!(check_amount(1, 100_000_000, 1_999, 12), Err(PriceValidationError::PriceOutOfRange));
    assert_eq!(check_amount(1, 100_000_000, 999, 10), Ok(()));
    assert_eq!(check_amount(1, 100_000_000, 999, 9), Err(PriceValidationError::PriceOutOfRange));
    assert_eq!(check_amount(1, 100_000_000, 999, 11), Err(PriceValidationError::PriceOutOfRange));
}

#[test]
fn a_wide_tolerance_lets_the_band_start_at_zero() {
    assert_eq!(check_amount(1, 1, 10_000, 0), Ok(()));
    assert_eq!(check_amount(1, 1, 10_000, 2_000_000_000), Ok(()));
    assert_eq!(check_amount(1, 1, 10_000, 2_000_000_001), Err(PriceValidationError::PriceOutOfRange));
    assert_eq!(check_amount(1, 1, 20_000, 0), Ok(()));
    assert_eq!(check_amount(1, 1, 20_000, 3_000_000_000), Ok(()));
    assert_eq!(check_amount(1, 1, 20_000, 3_000_000_001), Err(PriceValidationError::PriceOutOfRange));
}

#[test]
fn the_band_ends_at_the_largest_amount() {
    let product = 18_000_000_000u64;
    assert!(check_amounts_fit(product, 1, 1));
    assert_eq!(check_amount(product, 1, 1, 18_000_000_000_000_000_000), Ok(()));
    assert!(!check_amounts_fit(product, 1, 2));
    assert!(check_amounts_fit(9_000_000_000, 1, 2));
    assert!(check_amounts_fit(1, 1, 18_446_744_073));
    assert_eq!(check_amount(1, 1, 18_446_744_073, u64::MAX), Err(PriceValidationError::PriceOutOfRange));
    assert_eq!(check_amount(1, 1, 18_446_744_073, 1_844_675_407_300_000), Ok(()));
    assert_eq!(check_amount(1, 1, 18_446_744_073, 1_844_675_407_300_001), Err(PriceValidationError::PriceOutOfRange));
    assert!(check_amounts_fit(10_000_000_000, 1, 1));
    assert_eq!(check_amount(10_000_000_000, 1, 1, 10_001_000_000_000_000_000), Ok(()));
    assert!(check_amounts_fit(18_446_744_073, 1, 1));
    assert_eq!(check_amount(18_446_744_073, 1, 1, u64::MAX), Ok(()));
}

#[test]
fn a_token_without_a_price_is_invalid_oracle_data() {
    assert_eq!(check_amount(1000, 0, 2000, 0), Err(PriceValidationError::InvalidOracleData));
    assert_eq!(check_amount(u64::MAX, 0, u64::MAX, 1), Err(PriceValidationError::InvalidOracleData));
    assert_eq!(
        validate_price(true, 2000, reading(1000, 0), reading(5, 1), 1),
        Err(PriceValidationError::InvalidOracleData)
    );
}

#[test]
fn amounts_must_fit_64_bits() {
    assert!(check_amounts_fit(18_446_744_073, 1, 1));
    assert!(!check_amounts_fit(18_446_744_074, 1, 0));
    assert!(!check_amounts_fit(18_446_744_074, u64::MAX, 0));
    assert!(check_amounts_fit(1000, 1, 18_446_744));
    assert!(!check_amounts_fit(1000, 1, 18_446_745));
    assert!(check_amounts_fit(1000, 1000, 18_446_744_073));
    assert!(check_amounts_fit(0, 1, u64::MAX));
    assert!(check_amounts_fit(1, 1_000_000_000, u64::MAX));
    assert!(!check_amounts_fit(2, 1_000_000_000, u64::MAX));
}

#[test]
fn price_of_takes_the_whole_part_of_a_reading() {
    assert_eq!(price_of(reading(1000, 0)), Some(1000));
    assert_eq!(price_of(reading(100_099, 2)), Some(1000));
    assert_eq!(price_of(reading(-1, 0)), None);
    assert_eq!(price_of(reading(u64::MAX as i128 + 1, 0)), None);
    assert_eq!(price_of(None), None);
}

#[test]
fn validate_price_decides_on_readings() {
    assert_eq!(validate_price(true, 2000, reading(1000, 0), reading(1, 0), 900_000_000_000), Ok(()));
    assert_eq!(
        validate_price(true, 2000, reading(1000, 0), reading(1, 0), 700_000_000_000),
        Err(PriceValidationError::PriceOutOfRange)
    );
    assert_eq!(validate_price(true, 2000, reading(100_000, 2), reading(199, 2), 900_000_000_000), Ok(()));
    assert_eq!(
        validate_price(true, 2000, None, reading(1, 0), 900_000_000_000),
        Err(PriceValidationError::SwitchboardError)
    );
    assert_eq!(
        validate_price(true, 2000, reading(1000, 0), None, 900_000_000_000),
        Err(PriceValidationError::SwitchboardError)
    );
    assert_eq!(
        validate_price(true, 2000, reading(-1000, 0), reading(1, 0), 900_000_000_000),
        Err(PriceValidationError::SwitchboardError)
    );
    assert_eq!(
        validate_price(true, 2000, reading(1000, 0), reading(i128::MAX, 0), 900_000_000_000),
        Err(PriceValidationError::SwitchboardError)
    );
    assert_eq!(
        validate_price(true, 2000, None, reading(0, 0), 900_000_000_000),
        Err(PriceValidationError::SwitchboardError)
    );
}

#[test]
fn while_validation_is_off_every_amount_passes() {
    for amount in [0u64, 1, 700_000_000_000, u64::MAX] {
        assert_eq!(validate_price(false, 2000, reading(1000, 0), reading(1, 0), amount), Ok(()));
        assert_eq!(validate_price(false, u64::MAX, None, None, amount), Ok(()));
        assert_eq!(
            validate_price(false, u64::MAX, reading(i128::MAX, 0), reading(0, 0), amount),
            Ok(())
        );
        let ctx = context(2000, false, feed_bytes(1000, 0), feed_bytes(1, 0));
        assert_eq!(transfer_hook(&ctx, amount), Ok(()));
        assert_eq!(checked_transfer_hook(&ctx, amount), Some(Ok(())));
        let ctx = context(u64::MAX, false, vec![], vec![1, 2, 3]);
        assert_eq!(transfer_hook(&ctx, amount), Ok(()));
        assert_eq!(checked_transfer_hook(&ctx, amount), Some(Ok(())));
        let ctx = context(u64::MAX, false, feed_bytes(u64::MAX as i128, 0), feed_bytes(1, 0));
        assert_eq!(transfer_hook(&ctx, amount), Ok(()));
        assert_eq!(checked_transfer_hook(&ctx, amount), Some(Ok(())));
        let list = accounts(u64::MAX, false, feed_bytes(u64::MAX as i128, 0), vec![]);
        assert_eq!(fallback(&address(200), &list, &execute(amount)), Ok(()));
        assert_eq!(checked_fallback(&address(200), &list, &execute(amount)), Some(Ok(())));
    }
}

#[test]
fn the_typed_entry_point_reads_both_feeds() {
    let ctx = context(2000, true, feed_bytes(1000, 0), feed_bytes(1, 0));
    assert_eq!(transfer_hook(&ctx, 900_000_000_000), Ok(()));
    assert_eq!(transfer_hook(&ctx, 700_000_000_000), Err(PriceValidationError::PriceOutOfRange));
    assert_eq!(transfer_hook(&ctx, 800_000_000_000), Ok(()));
    assert_eq!(transfer_hook(&ctx, 1_200_000_000_000), Ok(()));
    assert_eq!(transfer_hook(&ctx, 1_200_000_000_001), Err(PriceValidationError::PriceOutOfRange));
    let ctx = context(2000, true, feed_bytes(100_000, 2), feed_bytes(2_500, 3));
    assert_eq!(transfer_hook(&ctx, 500_000_000_000), Ok(()));
    assert_eq!(transfer_hook(&ctx, 399_999_999_999), Err(PriceValidationError::PriceOutOfRange));
    let ctx = context(2000, true, feed_bytes(1_000, 0), feed_bytes(1_000, 0));
    assert_eq!(transfer_hook(&ctx, 1_000_000_000), Ok(()));
    let ctx = context(2000, true, feed_bytes(1, 0), feed_bytes(1_000, 0));
    assert_eq!(transfer_hook(&ctx, 1_000_000), Ok(()));
    assert_eq!(transfer_hook(&ctx, 1_200_001), Err(PriceValidationError::PriceOutOfRange));
}

#[test]
fn a_feed_that_fails_is_a_switchboard_error() {
    let ctx = context(2000, true, vec![], feed_bytes(1, 0));
    assert_eq!(transfer_hook(&ctx, 1), Err(PriceValidationError::SwitchboardError));
    let ctx = context(2000, true, feed_bytes(1000, 0), vec![0u8; 4000]);
    assert_eq!(transfer_hook(&ctx, 1), Err(PriceValidationError::SwitchboardError));
    let ctx = context(2000, true, feed_bytes(-1000, 0), feed_bytes(1, 0));
    assert_eq!(transfer_hook(&ctx, 1), Err(PriceValidationError::SwitchboardError));
    let ctx = context(2000, true, feed_bytes(1000, 0), feed_bytes(u64::MAX as i128 + 1, 0));
    assert_eq!(transfer_hook(&ctx, 1), Err(PriceValidationError::SwitchboardError));
    assert_eq!(checked_transfer_hook(&ctx, 1), Some(Err(PriceValidationError::SwitchboardError)));
    let ctx = context(2000, true, feed_bytes(1000, 0), feed_bytes(9, 1));
    assert_eq!(transfer_hook(&ctx, 1), Err(PriceValidationError::InvalidOracleData));
    assert_eq!(checked_transfer_hook(&ctx, 1), Some(Err(PriceValidationError::InvalidOracleData)));
}

#[test]
fn the_checked_entry_points_answer_none_on_overflow() {
    assert!(check_verdict_fits(true, 2000, reading(1000, 0), reading(1, 0)));
    assert!(!check_verdict_fits(true, 2000, reading(18_446_744_074, 0), reading(1, 0)));
    assert!(check_verdict_fits(false, 2000, reading(18_446_744_074, 0), reading(1, 0)));
    assert!(check_verdict_fits(true, 2000, reading(18_446_744_074, 0), reading(0, 0)));
    assert!(check_verdict_fits(true, 2000, reading(18_446_744_074, 0), None));
    assert!(check_verdict_fits(true, 2000, None, None));
    let ctx = context(2000, true, feed_bytes(1000, 0), feed_bytes(1, 0));
    assert_eq!(checked_transfer_hook(&ctx, 900_000_000_000), Some(Ok(())));
    assert_eq!(
        checked_transfer_hook(&ctx, 700_000_000_000),
        Some(Err(PriceValidationError::PriceOutOfRange))
    );
    let ctx = context(2000, true, feed_bytes(18_446_744_074, 0), feed_bytes(1, 0));
    assert_eq!(checked_transfer_hook(&ctx, 900_000_000_000), None);
    let ctx = context(18_446_745, true, feed_bytes(1000, 0), feed_bytes(1, 0));
    assert_eq!(checked_transfer_hook(&ctx, 900_000_000_000), None);
    let list = accounts(18_446_745, true, feed_bytes(1000, 0), feed_bytes(1, 0));
    assert_eq!(checked_fallback(&address(200), &list, &execute(900_000_000_000)), None);
    let list = accounts(18_446_744, true, feed_bytes(1000, 0), feed_bytes(1, 0));
    assert_eq!(checked_fallback(&address(200), &list, &execute(900_000_000_000)), Some(Ok(())));
}

#[test]
fn the_raw_entry_point_decodes_instruction_and_state() {
    assert_eq!(PRICE_ACCOUNTS, 8);
    let list = accounts(2000, true, feed_bytes(1000, 0), feed_bytes(1, 0));
    assert_eq!(fallback(&address(200), &list, &execute(900_000_000_000)), Ok(()));
    assert_eq!(
        fallback(&address(200), &list, &execute(700_000_000_000)),
        Err(PriceValidationError::PriceOutOfRange)
    );
    assert_eq!(fallback(&address(200), &list, &execute(800_000_000_000)), Ok(()));
    assert_eq!(
        fallback(&address(200), &list, &execute(1_200_000_000_001)),
        Err(PriceValidationError::PriceOutOfRange)
    );
    let mut longer = accounts(2000, true, feed_bytes(1000, 0), feed_bytes(1, 0));
    longer.push(AccountHandle { key: address(110), data: vec![] });
    longer[5].data.push(3);
    assert_eq!(fallback(&address(200), &longer, &execute(900_000_000_000)), Ok(()));
}

#[test]
fn the_raw_entry_point_refuses_malformed_input() {
    let list = accounts(2000, true, feed_bytes(1000, 0), feed_bytes(1, 0));
    let mut other = execute(900_000_000_000);
    other[3] ^= 1;
    for data in [&other[..], &[], &execute(900_000_000_000)[..15]] {
        assert_eq!(
            fallback(&address(200), &list, data),
            Err(PriceValidationError::InvalidInstruction)
        );
        assert_eq!(
            checked_fallback(&address(200), &list, data),
            Some(Err(PriceValidationError::InvalidInstruction))
        );
    }
    for len in 0..8 {
        let mut short = accounts(2000, true, feed_bytes(1000, 0), feed_bytes(1, 0));
        short.truncate(len);
        assert_eq!(
            fallback(&address(200), &short, &execute(900_000_000_000)),
            Err(PriceValidationError::InvalidInstruction)
        );
        assert_eq!(
            checked_fallback(&address(200), &short, &execute(900_000_000_000)),
            Some(Err(PriceValidationError::InvalidInstruction))
        );
    }
    let mut short_state = accounts(2000, false, feed_bytes(1000, 0), feed_bytes(1, 0));
    short_state[5].data.truncate(80);
    assert_eq!(
        fallback(&address(200), &short_state, &execute(900_000_000_000)),
        Err(PriceValidationError::InvalidInstruction)
    );
    let mut no_feed = accounts(2000, true, feed_bytes(1000, 0), feed_bytes(1, 0));
    no_feed[6].data.clear();
    assert_eq!(
        fallback(&address(200), &no_feed, &execute(900_000_000_000)),
        Err(PriceValidationError::SwitchboardError)
    );
}

#[test]
fn both_payment_entry_points_agree() {
    let feeds: [(Vec<u8>, Vec<u8>); 6] = [
        (feed_bytes(1000, 0), feed_bytes(1, 0)),
        (feed_bytes(100_000, 2), feed_bytes(2_500, 3)),
        (feed_bytes(1000, 0), feed_bytes(0, 0)),
        (feed_bytes(-1, 0), feed_bytes(1, 0)),
        (vec![], feed_bytes(1, 0)),
        (feed_bytes(18_446_744_074, 0), feed_bytes(1, 0)),
    ];
    let mut compared = 0;
    for (product, token) in feeds {
        for tolerance in [0u64, 2000, 10_000, 20_000] {
            for active in [false, true] {
                for amount in [0u64, 500_000_000_000, 900_000_000_000, 1_000_000_000_000, u64::MAX] {
                    let ctx = context(tolerance, active, product.clone(), token.clone());
                    let list = accounts(tolerance, active, product.clone(), token.clone());
                    let typed = checked_transfer_hook(&ctx, amount);
                    let raw = checked_fallback(&address(200), &list, &execute(amount));
                    assert_eq!(raw, typed);
                    if let Some(verdict) = typed {
                        assert_eq!(transfer_hook(&ctx, amount), verdict);
                        assert_eq!(fallback(&address(200), &list, &execute(amount)), verdict);
                    }
                    compared += 1;
                }
            }
        }
    }
    assert_eq!(compared, 240);
}
