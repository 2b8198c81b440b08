//! The payment decision, and the two entry points that reach it.
//!
//! `transfer_hook` takes typed records, `fallback` takes an instruction
//! buffer and a flat list of accounts. Both give the same verdict for the
//! same state, feeds and amount. Neither changes anything.
//!
//! The arithmetic is done in `u64`, and there is no verdict on feeds whose
//! prices overflow it. `transfer_hook` and `fallback` leave such feeds to
//! their callers; `checked_transfer_hook` and `checked_fallback` answer `None`
//! for them.

use crate::account::{account_views, AccountHandle, AccountView};
use crate::address::Address;
use crate::hook::{decode_execute, execute_amount};
use crate::oracle::{feed_value, read_feed, to_unit_price, unit_price, FeedValue};
use crate::price::context::TransferHook;
use crate::price::error::PriceValidationError;
use crate::price::state::{PriceValidationState, STATE_LEN};
use vstd::prelude::*;

verus! {

/// Fewest accounts that the raw entry point accepts.
pub const PRICE_ACCOUNTS: usize = 8;

/// Position of the state record in the flat account list.
pub const STATE_AT: usize = 5;

/// Position of the product price feed in the flat account list.
pub const PRODUCT_FEED_AT: usize = 6;

/// Position of the token price feed in the flat account list.
pub const TOKEN_FEED_AT: usize = 7;

/// Smallest units in which one token is counted.
pub const UNITS_PER_TOKEN: u64 = 1_000_000_000;

/// Basis points in a whole.
pub const BASIS_POINTS: u64 = 10_000;

/// The amount of token units that pays for the product: the product price
/// in units, divided by the price of the token, rounded down.
pub open spec fn expected_amount(product_price: u64, token_usd_price: u64) -> int
    recommends
        token_usd_price > 0,
{
    product_price * 1_000_000_000 / (token_usd_price as int)
}

/// How far an amount may lie from the expected one.
pub open spec fn deviation(expected: int, tolerance_basis_points: u64) -> int {
    expected * tolerance_basis_points / 10_000
}

/// The least amount accepted: the expected amount less the deviation, and 0
/// where the deviation is the larger of the two.
pub open spec fn min_acceptable(expected: int, tolerance_basis_points: u64) -> int {
    if deviation(expected, tolerance_basis_points) > expected {
        0
    } else {
        expected - deviation(expected, tolerance_basis_points)
    }
}

/// The greatest amount accepted: the expected amount plus the deviation, and
/// `u64::MAX` where the sum lies beyond it.
pub open spec fn max_acceptable(expected: int, tolerance_basis_points: u64) -> int {
    if expected + deviation(expected, tolerance_basis_points) > u64::MAX {
        u64::MAX as int
    } else {
        expected + deviation(expected, tolerance_basis_points)
    }
}

/// Whether the expected amount and its product with the tolerance fit 64 bits.
pub open spec fn amounts_fit(product_price: u64, token_usd_price: u64, tolerance_basis_points: u64) -> bool {
    &&& product_price * 1_000_000_000 <= u64::MAX
    &&& expected_amount(product_price, token_usd_price) * tolerance_basis_points <= u64::MAX
}

/// The decision on an amount, given the two prices.
pub open spec fn amount_verdict(
    product_price: u64,
    token_usd_price: u64,
    tolerance_basis_points: u64,
    amount: u64,
) -> Result<(), PriceValidationError> {
    let expected = expected_amount(product_price, token_usd_price);
    if token_usd_price == 0 {
        Err(PriceValidationError::InvalidOracleData)
    } else if min_acceptable(expected, tolerance_basis_points) <= amount <= max_acceptable(
        expected,
        tolerance_basis_points,
    ) {
        Ok(())
    } else {
        Err(PriceValidationError::PriceOutOfRange)
    }
}

/// The unit price that a feed reading gives, where it gives one.
pub open spec fn feed_price(reading: Option<FeedValue>) -> Option<u64> {
    match reading {
        Some(value) => unit_price(value),
        None => None,
    }
}

/// The payment decision: every amount passes while validation is off; a feed
/// without a price is a feed failure; otherwise the amount decides.
pub open spec fn price_verdict(
    active: bool,
    tolerance_basis_points: u64,
    product: Option<FeedValue>,
    token: Option<FeedValue>,
    amount: u64,
) -> Result<(), PriceValidationError> {
    if !active {
        Ok(())
    } else {
        match (feed_price(product), feed_price(token)) {
            (Some(product_price), Some(token_usd_price)) => amount_verdict(
                product_price,
                token_usd_price,
                tolerance_basis_points,
                amount,
            ),
            _ => Err(PriceValidationError::SwitchboardError),
        }
    }
}

/// Whether the payment decision can be computed in 64 bits: it can, unless
/// validation is on, both feeds give a price, the token costs something and
/// the amounts do not fit.
pub open spec fn verdict_fits(
    active: bool,
    tolerance_basis_points: u64,
    product: Option<FeedValue>,
    token: Option<FeedValue>,
) -> bool {
    active ==> match (feed_price(product), feed_price(token)) {
        (Some(product_price), Some(token_usd_price)) => token_usd_price > 0 ==> amounts_fit(
            product_price,
            token_usd_price,
            tolerance_basis_points,
        ),
        _ => true,
    }
}

/// The decision of the raw entry point on an instruction buffer and a flat
/// account list. A buffer that is no execute instruction, a list that is too
/// short and a state record that is too short are invalid instructions.
pub open spec fn raw_price_verdict(accounts: Seq<AccountView>, data: Seq<u8>) -> Result<
    (),
    PriceValidationError,
> {
    match execute_amount(data) {
        None => Err(PriceValidationError::InvalidInstruction),
        Some(amount) => {
            if accounts.len() < PRICE_ACCOUNTS {
                Err(PriceValidationError::InvalidInstruction)
            } else if accounts[STATE_AT as int].data.len() < STATE_LEN {
                Err(PriceValidationError::InvalidInstruction)
            } else {
                let state = PriceValidationState::decode(accounts[STATE_AT as int].data);
                price_verdict(
                    state.is_price_validation_active,
                    state.tolerance_basis_points,
                    feed_value(accounts[PRODUCT_FEED_AT as int].data),
                    feed_value(accounts[TOKEN_FEED_AT as int].data),
                    amount,
                )
            }
        },
    }
}

/// Whether the decision of the raw entry point can be computed in 64 bits.
pub open spec fn raw_verdict_fits(accounts: Seq<AccountView>, data: Seq<u8>) -> bool {
    execute_amount(data) is Some && accounts.len() >= PRICE_ACCOUNTS
        && accounts[STATE_AT as int].data.len() >= STATE_LEN ==> {
        let state = PriceValidationState::decode(accounts[STATE_AT as int].data);
        verdict_fits(
            state.is_price_validation_active,
            state.tolerance_basis_points,
            feed_value(accounts[PRODUCT_FEED_AT as int].data),
            feed_value(accounts[TOKEN_FEED_AT as int].data),
        )
    }
}

/// Tests whether the expected amount and its product with the tolerance fit
/// 64 bits.
pub fn check_amounts_fit(product_price: u64, token_usd_price: u64, tolerance_basis_points: u64) -> (fits:
    bool)
    requires
        token_usd_price > 0,
    ensures
        fits == amounts_fit(product_price, token_usd_price, tolerance_basis_points),
{
    match product_price.checked_mul(UNITS_PER_TOKEN) {
        None => false,
        Some(units) => {
            let expected: u64 = units / token_usd_price;
            expected.checked_mul(tolerance_basis_points).is_some()
        },
    }
}

/// Decides on an amount, given the two prices.
pub fn check_amount(
    product_price: u64,
    token_usd_price: u64,
    tolerance_basis_points: u64,
    amount: u64,
) -> (verdict: Result<(), PriceValidationError>)
    requires
        token_usd_price > 0 ==> amounts_fit(product_price, token_usd_price, tolerance_basis_points),
    ensures
        verdict == amount_verdict(product_price, token_usd_price, tolerance_basis_points, amount),
{
    if token_usd_price == 0 {
        return Err(PriceValidationError::InvalidOracleData);
    }
    let expected: u64 = product_price * UNITS_PER_TOKEN / token_usd_price;
    let deviation: u64 = expected * tolerance_basis_points / BASIS_POINTS;
    let min_acceptable: u64 = expected.saturating_sub(deviation);
    let max_acceptable: u64 = expected.saturating_add(deviation);
    if amount >= min_acceptable && amount <= max_acceptable {
        Ok(())
    } else {
        Err(PriceValidationError::PriceOutOfRange)
    }
}

/// The unit price that a feed reading gives, where it gives one.
pub fn price_of(reading: Option<FeedValue>) -> (price: Option<u64>)
    ensures
        price == feed_price(reading),
{
    match reading {
        Some(value) => to_unit_price(&value),
        None => None,
    }
}

/// Tests whether the payment decision can be computed in 64 bits.
pub fn check_verdict_fits(
    active: bool,
    tolerance_basis_points: u64,
    product: Option<FeedValue>,
    token: Option<FeedValue>,
) -> (fits: bool)
    ensures
        fits == verdict_fits(active, tolerance_basis_points, product, token),
{
    if !active {
        return true;
    }
    match (price_of(product), price_of(token)) {
        (Some(product_price), Some(token_usd_price)) => {
            token_usd_price == 0 || check_amounts_fit(
                product_price,
                token_usd_price,
                tolerance_basis_points,
            )
        },
        _ => true,
    }
}

/// Decides on a payment, given the state and what the two feeds report.
pub fn validate_price(
    active: bool,
    tolerance_basis_points: u64,
    product: Option<FeedValue>,
    token: Option<FeedValue>,
    amount: u64,
) -> (verdict: Result<(), PriceValidationError>)
    requires
        verdict_fits(active, tolerance_basis_points, product, token),
    ensures
        verdict == price_verdict(active, tolerance_basis_points, product, token, amount),
{
    if !active {
        return Ok(());
    }
    let product_price = match price_of(product) {
        Some(price) => price,
        None => {
            return Err(PriceValidationError::SwitchboardError);
        },
    };
    let token_usd_price = match price_of(token) {
        Some(price) => price,
        None => {
            return Err(PriceValidationError::SwitchboardError);
        },
    };
    check_amount(product_price, token_usd_price, tolerance_basis_points, amount)
}

/// The typed entry point. Decides on the transfer of `amount`.
pub fn transfer_hook(ctx: &TransferHook, amount: u64) -> (verdict: Result<(), PriceValidationError>)
    requires
        verdict_fits(
            ctx.state.is_price_validation_active,
            ctx.state.tolerance_basis_points,
            feed_value(ctx.product_price_feed.data@),
            feed_value(ctx.token_usd_price_feed.data@),
        ),
    ensures
        verdict == price_verdict(
            ctx.state.is_price_validation_active,
            ctx.state.tolerance_basis_points,
            feed_value(ctx.product_price_feed.data@),
            feed_value(ctx.token_usd_price_feed.data@),
            amount,
        ),
{
    if !ctx.state.is_price_validation_active {
        return Ok(());
    }
    validate_price(
        true,
        ctx.state.tolerance_basis_points,
        read_feed(ctx.product_price_feed.data.as_slice()),
        read_feed(ctx.token_usd_price_feed.data.as_slice()),
        amount,
    )
}

/// The typed entry point for every input: the verdict of `transfer_hook`
/// where it can be computed in 64 bits, and `None` where it cannot.
pub fn checked_transfer_hook(ctx: &TransferHook, amount: u64) -> (verdict: Option<
    Result<(), PriceValidationError>,
>)
    ensures
        verdict == if verdict_fits(
            ctx.state.is_price_validation_active,
            ctx.state.tolerance_basis_points,
            feed_value(ctx.product_price_feed.data@),
            feed_value(ctx.token_usd_price_feed.data@),
        ) {
            Some(
                price_verdict(
                    ctx.state.is_price_validation_active,
                    ctx.state.tolerance_basis_points,
                    feed_value(ctx.product_price_feed.data@),
                    feed_value(ctx.token_usd_price_feed.data@),
                    amount,
                ),
            )
        } else {
            None
        },
{
    let fits = !ctx.state.is_price_validation_active || check_verdict_fits(
        true,
        ctx.state.tolerance_basis_points,
        read_feed(ctx.product_price_feed.data.as_slice()),
        read_feed(ctx.token_usd_price_feed.data.as_slice()),
    );
    if fits {
        Some(transfer_hook(ctx, amount))
    } else {
        None
    }
}

/// The raw entry point. Decodes the instruction, picks the state and the
/// feeds out of the flat account list by position, and decides on the
/// transfer.
pub fn fallback(program_id: &Address, accounts: &Vec<AccountHandle>, data: &[u8]) -> (verdict:
    Result<(), PriceValidationError>)
    requires
        raw_verdict_fits(account_views(accounts@), data@),
    ensures
        verdict == raw_price_verdict(account_views(accounts@), data@),
{
    let amount = match decode_execute(data) {
        Some(amount) => amount,
        None => {
            return Err(PriceValidationError::InvalidInstruction);
        },
    };
    if accounts.len() < PRICE_ACCOUNTS {
        return Err(PriceValidationError::InvalidInstruction);
    }
    let state = match PriceValidationState::unpack(accounts[STATE_AT].data.as_slice()) {
        Some(state) => state,
        None => {
            return Err(PriceValidationError::InvalidInstruction);
        },
    };
    if !state.is_price_validation_active {
        return Ok(());
    }
    validate_price(
        true,
        state.tolerance_basis_points,
        read_feed(accounts[PRODUCT_FEED_AT].data.as_slice()),
        read_feed(accounts[TOKEN_FEED_AT].data.as_slice()),
        amount,
    )
}

/// The raw entry point for every input: the verdict of `fallback` where it
/// can be computed in 64 bits, and `None` where it cannot.
pub fn checked_fallback(program_id: &Address, accounts: &Vec<AccountHandle>, data: &[u8]) -> (verdict:
    Option<Result<(), PriceValidationError>>)
    ensures
        verdict == if raw_verdict_fits(account_views(accounts@), data@) {
            Some(raw_price_verdict(account_views(accounts@), data@))
        } else {
            None
        },
{
    let decodes = decode_execute(data).is_some() && accounts.len() >= PRICE_ACCOUNTS;
    let fits = if decodes {
        match PriceValidationState::unpack(accounts[STATE_AT].data.as_slice()) {
            Some(state) => !state.is_price_validation_active || check_verdict_fits(
                true,
                state.tolerance_basis_points,
                read_feed(accounts[PRODUCT_FEED_AT].data.as_slice()),
                read_feed(accounts[TOKEN_FEED_AT].data.as_slice()),
            ),
            None => true,
        }
    } else {
        true
    };
    if fits {
        Some(fallback(program_id, accounts, data))
    } else {
        None
    }
}

} // verus!
