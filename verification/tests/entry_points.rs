use oracle_hooks::account::AccountHandle;
use oracle_hooks::address::Address;
use oracle_hooks::earthquake;
use oracle_hooks::price;

fn address(first: u8) -> Address {
    let mut bytes = [0u8; 32];
    for (i, byte) in bytes.iter_mut().enumerate() {
        *byte = first.wrapping_add(i as u8);
    }
    Address { bytes }
}

#[test]
fn each_hook_offers_its_instructions_by_name() {
    let mut ctx = earthquake::InitializeConfig {
        config: earthquake::InsuranceConfig { threshold_magnitude: 0, authority: Address::default() },
        authority: address(1),
    };
    assert_eq!(earthquake::initialize_config(&mut ctx, 700), Ok(()));
    assert_eq!(ctx.config.threshold_magnitude, 700);
    let mut none: Vec<AccountHandle> = Vec::new();
    assert_eq!(
        earthquake::fallback(&address(2), &mut none, &[], 0),
        Err(earthquake::EarthquakeInsuranceError::InvalidInstruction)
    );
    assert_eq!(
        price::checked_fallback(&address(2), &none, &[]),
        Some(Err(price::PriceValidationError::InvalidInstruction))
    );
    let ctx = price::TransferHook {
        state: price::PriceValidationState {
            product_price_feed_pubkey: address(3),
            token_usd_price_feed_pubkey: address(4),
            tolerance_basis_points: 0,
            is_price_validation_active: false,
        },
        product_price_feed: AccountHandle { key: address(3), data: vec![] },
        token_usd_price_feed: AccountHandle { key: address(4), data: vec![] },
    };
    assert_eq!(price::transfer_hook(&ctx, 5), Ok(()));
    assert_eq!(earthquake::Region::from_u8(4), Some(earthquake::Region::West));
}
