//! What holds of every payment decision, on both entry points.

use crate::account::AccountView;
use crate::oracle::{aggregator_tag, feed_value, FeedValue, AGGREGATOR_ACCOUNT_LEN};
use crate::price::error::PriceValidationError;
use crate::price::state::{PriceValidationState, STATE_LEN};
use crate::price::validation::{
    amount_verdict, expected_amount, max_acceptable, min_acceptable, price_verdict,
    raw_price_verdict, raw_verdict_fits, verdict_fits, PRICE_ACCOUNTS, PRODUCT_FEED_AT, STATE_AT,
    TOKEN_FEED_AT,
};
use crate::hook::execute_amount;
use vstd::prelude::*;

verus! {

/// Whether the raw entry point finds an execute instruction and a state
/// record of full length.
pub open spec fn raw_price_decodes(accounts: Seq<AccountView>, data: Seq<u8>) -> bool {
    &&& execute_amount(data) is Some
    &&& accounts.len() >= PRICE_ACCOUNTS
    &&& accounts[STATE_AT as int].data.len() >= STATE_LEN
}

/// While validation is switched off every amount is allowed, whatever the
/// feeds report, and the decision needs no arithmetic.
pub proof fn law_inactive_allows_every_amount(
    tolerance_basis_points: u64,
    product: Option<FeedValue>,
    token: Option<FeedValue>,
    amount: u64,
)
    ensures
        price_verdict(false, tolerance_basis_points, product, token, amount) == Ok::<
            (),
            PriceValidationError,
        >(()),
        verdict_fits(false, tolerance_basis_points, product, token),
{
}

/// On the raw entry point, too, every amount is allowed while the stored
/// state has validation switched off.
pub proof fn law_raw_inactive_allows_every_amount(accounts: Seq<AccountView>, data: Seq<u8>)
    requires
        raw_price_decodes(accounts, data),
        !PriceValidationState::decode(accounts[STATE_AT as int].data).is_price_validation_active,
    ensures
        raw_price_verdict(accounts, data) == Ok::<(), PriceValidationError>(()),
        raw_verdict_fits(accounts, data),
{
}

/// While validation is switched on, a feed whose account is too short for
/// an aggregator or starts with another tag is a feed failure, whatever the
/// other feed reports and whatever the amount is.
pub proof fn law_malformed_feed_fails(
    tolerance_basis_points: u64,
    feed_data: Seq<u8>,
    other: Option<FeedValue>,
    amount: u64,
)
    requires
        feed_data.len() < AGGREGATOR_ACCOUNT_LEN || feed_data.subrange(0, 8) != aggregator_tag(),
    ensures
        price_verdict(true, tolerance_basis_points, feed_value(feed_data), other, amount) == Err::<
            (),
            PriceValidationError,
        >(PriceValidationError::SwitchboardError),
        price_verdict(true, tolerance_basis_points, other, feed_value(feed_data), amount) == Err::<
            (),
            PriceValidationError,
        >(PriceValidationError::SwitchboardError),
        verdict_fits(true, tolerance_basis_points, feed_value(feed_data), other),
        verdict_fits(true, tolerance_basis_points, other, feed_value(feed_data)),
{
}

/// The amounts accepted form a band around the expected amount: the least
/// one is at most the expected amount, the greatest at least, and exactly
/// the amounts between them pass.
pub proof fn law_band_holds_expected_amount(
    product_price: u64,
    token_usd_price: u64,
    tolerance_basis_points: u64,
    amount: u64,
)
    requires
        token_usd_price > 0,
        expected_amount(product_price, token_usd_price) <= u64::MAX,
    ensures
        ({
            let expected = expected_amount(product_price, token_usd_price);
            &&& 0 <= min_acceptable(expected, tolerance_basis_points) <= expected
            &&& expected <= max_acceptable(expected, tolerance_basis_points) <= u64::MAX
            &&& amount_verdict(
                product_price,
                token_usd_price,
                tolerance_basis_points,
                expected as u64,
            ) is Ok
            &&& amount_verdict(product_price, token_usd_price, tolerance_basis_points, amount)
                is Ok <==> min_acceptable(expected, tolerance_basis_points) <= amount
                <= max_acceptable(expected, tolerance_basis_points)
        }),
{
    let expected = expected_amount(product_price, token_usd_price);
    assert(expected >= 0) by (nonlinear_arith)
        requires
            expected == product_price * 1_000_000_000 / (token_usd_price as int),
            token_usd_price > 0,
    ;
    assert(expected * tolerance_basis_points / 10_000 >= 0) by (nonlinear_arith)
        requires
            expected >= 0,
    ;
}

/// The two entry points agree. Where the raw one finds an execute
/// instruction and a state record of full length, its verdict is that of the
/// typed one on the state decoded, the same feeds and the same amount, and it
/// can be computed in 64 bits exactly when the typed one can.
pub proof fn law_entry_points_agree(accounts: Seq<AccountView>, data: Seq<u8>)
    requires
        raw_price_decodes(accounts, data),
    ensures
        ({
            let state = PriceValidationState::decode(accounts[STATE_AT as int].data);
            let product = feed_value(accounts[PRODUCT_FEED_AT as int].data);
            let token = feed_value(accounts[TOKEN_FEED_AT as int].data);
            &&& raw_price_verdict(accounts, data) == price_verdict(
                state.is_price_validation_active,
                state.tolerance_basis_points,
                product,
                token,
                execute_amount(data)->0,
            )
            &&& raw_verdict_fits(accounts, data) == verdict_fits(
                state.is_price_validation_active,
                state.tolerance_basis_points,
                product,
                token,
            )
        }),
{
}

} // verus!
