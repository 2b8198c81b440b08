//! The fixed-point oracle reader.
//!
//! A feed account reports its latest result as a mantissa and a scale, which
//! stand for the number `mantissa / 10^scale`. The claim policy compares that
//! number in hundredths, the price policy uses its whole part as a unit price.
//! Nothing else in the crate looks into the bytes of a feed account.

use switchboard_v2::AggregatorAccountData;
use vstd::prelude::*;

verus! {

/// Length of an aggregator account: its eight-byte tag and the packed record.
pub const AGGREGATOR_ACCOUNT_LEN: usize = 3851;

/// The latest result of a feed: the number `mantissa / 10^scale`.
#[derive(Clone, Copy, Debug, PartialEq, Eq, Structural)]
pub struct FeedValue {
    pub mantissa: i128,
    pub scale: u32,
}

/// The tag in front of every aggregator account.
pub open spec fn aggregator_tag() -> Seq<u8> {
    seq![217u8, 230u8, 65u8, 101u8, 201u8, 162u8, 27u8, 125u8]
}

/// What `AggregatorAccountData::new_from_bytes` followed by
/// `AggregatorAccountData::get_result` gives for the bytes of an account: the
/// mantissa and the scale of the latest confirmed result, or nothing where
/// either of the two refuses. Which bytes of the account carry the result is
/// the aggregator's own matter: its record is packed without a fixed order of
/// fields.
pub uninterp spec fn aggregator_result(data: Seq<u8>) -> Option<(i128, u32)>;

/// Opens `data` with `AggregatorAccountData::new_from_bytes` and asks the
/// account for its result with `AggregatorAccountData::get_result`.
///
/// The contract claims that the answer depends on the bytes alone, and that
/// there is none behind a foreign tag: the outside code compares the tag,
/// lays its record over the bytes behind it and reads the resolution mode,
/// two counters and the result out of the record. The buffer must hold a
/// whole account, because the outside code slices it without a test of its
/// length.
#[verifier::external_body]
fn aggregator_latest_result(data: &[u8]) -> (result: Option<(i128, u32)>)
    requires
        data@.len() >= AGGREGATOR_ACCOUNT_LEN,
    ensures
        result == aggregator_result(data@),
        data@.subrange(0, 8) != aggregator_tag() ==> result is None,
{
    match AggregatorAccountData::new_from_bytes(data) {
        Ok(feed) => match feed.get_result() {
            Ok(decimal) => Some((decimal.mantissa, decimal.scale)),
            Err(_) => None,
        },
        Err(_) => None,
    }
}

/// What a feed account with the bytes `data` reports: nothing where the
/// buffer is too short for an aggregator account, where it does not start
/// with the tag of one, or where the aggregator itself gives no result.
pub open spec fn feed_value(data: Seq<u8>) -> Option<FeedValue> {
    if data.len() >= AGGREGATOR_ACCOUNT_LEN && data.subrange(0, 8) == aggregator_tag() {
        match aggregator_result(data) {
            Some((mantissa, scale)) => Some(FeedValue { mantissa, scale }),
            None => None,
        }
    } else {
        None
    }
}

/// Reads the latest result out of the bytes of a feed account.
pub fn read_feed(data: &[u8]) -> (value: Option<FeedValue>)
    ensures
        value == feed_value(data@),
{
    if data.len() < AGGREGATOR_ACCOUNT_LEN {
        return None;
    }
    match aggregator_latest_result(data) {
        Some((mantissa, scale)) => Some(FeedValue { mantissa, scale }),
        None => None,
    }
}

/// Ten to the power `n`.
pub open spec fn pow10(n: nat) -> nat
    decreases n,
{
    if n == 0 {
        1
    } else {
        10 * pow10((n - 1) as nat)
    }
}

/// The value in hundredths, rounded toward zero and held to the range of
/// `u64`: a negative value counts as 0, one past the range as `u64::MAX`.
pub open spec fn hundredths(value: FeedValue) -> int {
    if value.mantissa <= 0 {
        0
    } else {
        let scaled = value.mantissa * 100 / (pow10(value.scale as nat) as int);
        if scaled > u64::MAX {
            u64::MAX as int
        } else {
            scaled
        }
    }
}

/// The whole part of the value, rounded toward zero, where it fits `u64`.
pub open spec fn unit_price(value: FeedValue) -> Option<u64> {
    let divisor = pow10(value.scale as nat) as int;
    let mantissa = value.mantissa as int;
    if mantissa >= 0 {
        if mantissa / divisor <= u64::MAX {
            Some((mantissa / divisor) as u64)
        } else {
            None
        }
    } else if -mantissa < divisor {
        Some(0u64)
    } else {
        None
    }
}

/// Powers of ten grow with the exponent.
pub proof fn lemma_pow10_monotonic(a: nat, b: nat)
    requires
        a <= b,
    ensures
        0 < pow10(a) <= pow10(b),
    decreases b,
{
    if b == 0 {
    } else if a == b {
        lemma_pow10_monotonic((a - 1) as nat, (b - 1) as nat);
    } else {
        lemma_pow10_monotonic(a, (b - 1) as nat);
    }
}

/// Hundredths are rounded toward zero: below the range limit, the result is
/// the largest number of hundredths that does not exceed a positive value.
pub proof fn lemma_hundredths_round_toward_zero(value: FeedValue)
    requires
        value.mantissa > 0,
        hundredths(value) < u64::MAX,
    ensures
        hundredths(value) * pow10(value.scale as nat) <= value.mantissa * 100,
        value.mantissa * 100 < (hundredths(value) + 1) * pow10(value.scale as nat),
{
    let divisor = pow10(value.scale as nat) as int;
    let scaled = value.mantissa * 100;
    lemma_pow10_monotonic(0, value.scale as nat);
    vstd::arithmetic::div_mod::lemma_fundamental_div_mod(scaled, divisor);
    vstd::arithmetic::div_mod::lemma_mod_bound(scaled, divisor);
    assert((scaled / divisor + 1) * divisor == divisor * (scaled / divisor) + divisor)
        by (nonlinear_arith);
    assert((scaled / divisor) * divisor == divisor * (scaled / divisor)) by (nonlinear_arith);
}

/// A unit price is rounded toward zero: the price of a value that is not
/// negative is the largest whole number that does not exceed it, and a
/// negative value has the price 0 exactly when it lies above -1.
pub proof fn lemma_unit_price_rounds_toward_zero(value: FeedValue)
    ensures
        value.mantissa >= 0 ==> (unit_price(value) matches Some(price) ==> price * pow10(
            value.scale as nat,
        ) <= value.mantissa < (price + 1) * pow10(value.scale as nat)),
        value.mantissa < 0 ==> (unit_price(value) is Some <==> -value.mantissa < pow10(
            value.scale as nat,
        )),
        value.mantissa < 0 ==> (unit_price(value) matches Some(price) ==> price == 0),
{
    let divisor = pow10(value.scale as nat) as int;
    let mantissa = value.mantissa as int;
    lemma_pow10_monotonic(0, value.scale as nat);
    if mantissa >= 0 {
        vstd::arithmetic::div_mod::lemma_fundamental_div_mod(mantissa, divisor);
        vstd::arithmetic::div_mod::lemma_mod_bound(mantissa, divisor);
        assert((mantissa / divisor + 1) * divisor == divisor * (mantissa / divisor) + divisor)
            by (nonlinear_arith);
        assert((mantissa / divisor) * divisor == divisor * (mantissa / divisor))
            by (nonlinear_arith);
    }
}

/// A value given with two decimal places is its mantissa in hundredths, and
/// one given without decimal places has its mantissa as unit price.
pub proof fn lemma_values_at_their_own_scale(mantissa: i128)
    requires
        0 <= mantissa <= u64::MAX,
    ensures
        hundredths(FeedValue { mantissa, scale: 2 }) == mantissa,
        unit_price(FeedValue { mantissa, scale: 0 }) == Some(mantissa as u64),
{
    assert(pow10(2) == 100 && pow10(0) == 1) by {
        reveal_with_fuel(pow10, 3);
    }
    assert(mantissa * 100 / 100 == mantissa);
    assert(mantissa as int / 1 == mantissa);
}

/// The largest power of ten below 2^127, and the first one above it.
proof fn lemma_pow10_limits()
    ensures
        pow10(38) == 100_000_000_000_000_000_000_000_000_000_000_000_000,
        pow10(39) == 1_000_000_000_000_000_000_000_000_000_000_000_000_000,
{
    reveal_with_fuel(pow10, 40);
}

/// Ten to the power `n`, for the exponents whose power fits 127 bits.
fn pow10_u128(n: u32) -> (power: u128)
    requires
        n <= 38,
    ensures
        power == pow10(n as nat),
        0 < power <= 100_000_000_000_000_000_000_000_000_000_000_000_000,
{
    let mut power: u128 = 1;
    let mut i: u32 = 0;
    while i < n
        invariant
            i <= n <= 38,
            power == pow10(i as nat),
        decreases n - i,
    {
        proof {
            lemma_pow10_monotonic((i + 1) as nat, 38);
            lemma_pow10_limits();
        }
        power = power * 10;
        i += 1;
    }
    proof {
        lemma_pow10_monotonic(n as nat, 38);
        lemma_pow10_limits();
    }
    power
}

/// Brings a feed value to hundredths.
pub fn normalize(value: &FeedValue) -> (scaled: u64)
    ensures
        scaled == hundredths(*value),
{
    if value.mantissa <= 0 {
        return 0;
    }
    let mantissa: u128 = value.mantissa as u128;
    if value.scale >= 2 {
        let shift: u32 = value.scale - 2;
        proof {
            // 10^scale is 100 times 10^shift, so the factor 100 cancels.
            assert(pow10(value.scale as nat) == 100 * pow10(shift as nat)) by {
                reveal_with_fuel(pow10, 3);
            }
            lemma_pow10_monotonic(0, shift as nat);
            vstd::arithmetic::div_mod::lemma_div_multiples_vanish_quotient(
                100,
                mantissa as int,
                pow10(shift as nat) as int,
            );
        }
        if shift > 38 {
            proof {
                lemma_pow10_monotonic(39, shift as nat);
                lemma_pow10_limits();
                vstd::arithmetic::div_mod::lemma_basic_div(
                    mantissa as int,
                    pow10(shift as nat) as int,
                );
            }
            return 0;
        }
        let quotient: u128 = mantissa / pow10_u128(shift);
        if quotient > u64::MAX as u128 {
            u64::MAX
        } else {
            quotient as u64
        }
    } else {
        let factor: u128 = if value.scale == 1 {
            10
        } else {
            100
        };
        proof {
            reveal_with_fuel(pow10, 2);
            if value.scale == 1 {
                assert(mantissa * 100 / 10 == mantissa * 10);
            } else {
                assert(mantissa * 100 / 1 == mantissa * 100);
            }
        }
        if mantissa > u64::MAX as u128 {
            return u64::MAX;
        }
        let product: u128 = mantissa * factor;
        if product > u64::MAX as u128 {
            u64::MAX
        } else {
            product as u64
        }
    }
}

/// Brings a feed value to a whole unit price, where it has one.
pub fn to_unit_price(value: &FeedValue) -> (price: Option<u64>)
    ensures
        price == unit_price(*value),
{
    if value.scale > 38 {
        proof {
            lemma_pow10_monotonic(39, value.scale as nat);
            lemma_pow10_limits();
            if value.mantissa >= 0 {
                vstd::arithmetic::div_mod::lemma_basic_div(
                    value.mantissa as int,
                    pow10(value.scale as nat) as int,
                );
            }
        }
        return Some(0);
    }
    let divisor: u128 = pow10_u128(value.scale);
    if value.mantissa >= 0 {
        let quotient: u128 = (value.mantissa as u128) / divisor;
        if quotient > u64::MAX as u128 {
            None
        } else {
            Some(quotient as u64)
        }
    } else {
        // The magnitude of the least i128 does not fit i128: add one first.
        let magnitude: u128 = ((-(value.mantissa + 1)) as u128) + 1;
        if magnitude < divisor {
            Some(0)
        } else {
            None
        }
    }
}

} // verus!
