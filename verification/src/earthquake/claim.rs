//! The claim decision, and the two entry points that reach it.
//!
//! `transfer_hook` takes typed records, `fallback` takes an instruction
//! buffer and a flat list of accounts. Both run the same checks in the same
//! order. They differ in one thing: where a claim falls outside the window or
//! exceeds the insured amount, the raw entry point names the fault and the
//! typed one reports it as an unauthorized claim.

use crate::account::{account_views, AccountHandle, AccountView};
use crate::address::{unset, Address};
use crate::earthquake::context::TransferHook;
use crate::earthquake::error::EarthquakeInsuranceError;
use crate::earthquake::instruction::Region;
use crate::earthquake::state::{
    InsuranceConfig, RegionFeeds, UserAccount, UserAccountView, CONFIG_LEN, REGION_FEEDS_LEN,
    USER_ACCOUNT_LEN,
};
use crate::hook::{decode_execute, execute_amount};
use crate::oracle::{feed_value, hundredths, normalize, read_feed, FeedValue};
use vstd::prelude::*;

verus! {

/// Fewest accounts that the raw entry point accepts.
pub const CLAIM_ACCOUNTS: usize = 9;

/// Position of the owner of the source in the flat account list.
pub const OWNER_AT: usize = 3;

/// Position of the configuration record in the flat account list.
pub const CONFIG_AT: usize = 5;

/// Position of the feed registry in the flat account list.
pub const REGION_FEEDS_AT: usize = 6;

/// Position of the policy record in the flat account list.
pub const USER_ACCOUNT_AT: usize = 7;

/// Position of the presented feed in the flat account list.
pub const FEED_AT: usize = 8;

/// Position of the claimed flag in a stored policy record.
pub const CLAIMED_AT: usize = 41;

/// Whether the caller may claim `amount` on the policy at the time `now`:
/// the caller owns the policy, the policy was not claimed, `now` lies in its
/// window and `amount` does not exceed what it insures. The first check that
/// fails gives the reason.
pub open spec fn eligibility(
    policy: UserAccountView,
    caller: Seq<u8>,
    amount: u64,
    now: i64,
) -> Result<(), EarthquakeInsuranceError> {
    if policy.owner != caller {
        Err(EarthquakeInsuranceError::UserLocationNotRegistered)
    } else if policy.has_claimed {
        Err(EarthquakeInsuranceError::ClaimAlreadyProcessed)
    } else if now < policy.policy_start_time {
        Err(EarthquakeInsuranceError::PolicyNotActive)
    } else if now > policy.policy_end_time {
        Err(EarthquakeInsuranceError::PolicyExpired)
    } else if amount > policy.insurance_amount {
        Err(EarthquakeInsuranceError::ExcessClaimAmount)
    } else {
        Ok(())
    }
}

/// Whether a feed reading reaches the threshold, both in hundredths.
pub open spec fn magnitude_verdict(reading: Option<FeedValue>, threshold: u64) -> Result<
    (),
    EarthquakeInsuranceError,
> {
    match reading {
        None => Err(EarthquakeInsuranceError::InvalidOracleData),
        Some(value) => if hundredths(value) >= threshold {
            Ok(())
        } else {
            Err(EarthquakeInsuranceError::MagnitudeBelowThreshold)
        },
    }
}

/// Whether the feed presented speaks for the region and reports enough: the
/// region exists, its registry slot is set and holds the address of the feed,
/// and the reading reaches the threshold.
pub open spec fn feed_verdict(
    region: u8,
    feeds: Seq<Seq<u8>>,
    feed_key: Seq<u8>,
    reading: Option<FeedValue>,
    threshold: u64,
) -> Result<(), EarthquakeInsuranceError> {
    if region >= 5 {
        Err(EarthquakeInsuranceError::RegionNotSupported)
    } else if unset(feeds[region as int]) || feeds[region as int] != feed_key {
        Err(EarthquakeInsuranceError::InvalidFeed)
    } else {
        magnitude_verdict(reading, threshold)
    }
}

/// The claim decision: eligibility first, then the feed.
pub open spec fn claim_verdict(
    policy: UserAccountView,
    caller: Seq<u8>,
    threshold: u64,
    feeds: Seq<Seq<u8>>,
    feed_key: Seq<u8>,
    reading: Option<FeedValue>,
    amount: u64,
    now: i64,
) -> Result<(), EarthquakeInsuranceError> {
    match eligibility(policy, caller, amount, now) {
        Err(reason) => Err(reason),
        Ok(_) => feed_verdict(policy.region, feeds, feed_key, reading, threshold),
    }
}

/// A verdict as the typed entry point reports it.
pub open spec fn combined(verdict: Result<(), EarthquakeInsuranceError>) -> Result<
    (),
    EarthquakeInsuranceError,
> {
    match verdict {
        Ok(_) => Ok(()),
        Err(reason) => Err(reason.spec_combined()),
    }
}

/// The decision of the raw entry point on an instruction buffer and a flat
/// account list. A buffer that is no execute instruction, a list that is too
/// short and a configuration or registry record that is too short are
/// invalid instructions; a policy record that is too short is invalid user
/// data. The registry is looked at only once the claim is eligible.
pub open spec fn raw_claim_verdict(accounts: Seq<AccountView>, data: Seq<u8>, now: i64) -> Result<
    (),
    EarthquakeInsuranceError,
> {
    match execute_amount(data) {
        None => Err(EarthquakeInsuranceError::InvalidInstruction),
        Some(amount) => {
            if accounts.len() < CLAIM_ACCOUNTS {
                Err(EarthquakeInsuranceError::InvalidInstruction)
            } else if accounts[CONFIG_AT as int].data.len() < CONFIG_LEN {
                Err(EarthquakeInsuranceError::InvalidInstruction)
            } else if accounts[USER_ACCOUNT_AT as int].data.len() < USER_ACCOUNT_LEN {
                Err(EarthquakeInsuranceError::InvalidUserData)
            } else {
                let policy = UserAccount::decode(accounts[USER_ACCOUNT_AT as int].data);
                match eligibility(policy, accounts[OWNER_AT as int].key@, amount, now) {
                    Err(reason) => Err(reason),
                    Ok(_) => if accounts[REGION_FEEDS_AT as int].data.len() < REGION_FEEDS_LEN {
                        Err(EarthquakeInsuranceError::InvalidInstruction)
                    } else {
                        feed_verdict(
                            policy.region,
                            RegionFeeds::decode(accounts[REGION_FEEDS_AT as int].data),
                            accounts[FEED_AT as int].key@,
                            feed_value(accounts[FEED_AT as int].data),
                            InsuranceConfig::decode(
                                accounts[CONFIG_AT as int].data,
                            ).threshold_magnitude,
                        )
                    },
                }
            }
        },
    }
}

/// The account list after the raw entry point gave `verdict`: on success the
/// claimed byte of the policy record is 1, and nothing else has changed.
pub open spec fn raw_claim_effect(
    accounts: Seq<AccountView>,
    verdict: Result<(), EarthquakeInsuranceError>,
) -> Seq<AccountView> {
    if verdict is Ok {
        accounts.update(
            USER_ACCOUNT_AT as int,
            AccountView {
                key: accounts[USER_ACCOUNT_AT as int].key,
                data: accounts[USER_ACCOUNT_AT as int].data.update(CLAIMED_AT as int, 1u8),
            },
        )
    } else {
        accounts
    }
}

/// Checks whether the caller may claim `amount` on the policy at `now`.
pub fn check_eligibility(policy: &UserAccount, caller: &Address, amount: u64, now: i64) -> (verdict:
    Result<(), EarthquakeInsuranceError>)
    ensures
        verdict == eligibility(policy@, caller@, amount, now),
{
    proof {
        Address::lemma_same_bytes(policy.owner, *caller);
    }
    if policy.owner != *caller {
        return Err(EarthquakeInsuranceError::UserLocationNotRegistered);
    }
    if policy.has_claimed {
        return Err(EarthquakeInsuranceError::ClaimAlreadyProcessed);
    }
    if now < policy.policy_start_time {
        return Err(EarthquakeInsuranceError::PolicyNotActive);
    }
    if now > policy.policy_end_time {
        return Err(EarthquakeInsuranceError::PolicyExpired);
    }
    if amount > policy.insurance_amount {
        return Err(EarthquakeInsuranceError::ExcessClaimAmount);
    }
    Ok(())
}

/// Holds a feed reading against the threshold.
pub fn check_magnitude(reading: Option<FeedValue>, threshold: u64) -> (verdict: Result<
    (),
    EarthquakeInsuranceError,
>)
    ensures
        verdict == magnitude_verdict(reading, threshold),
{
    match reading {
        None => Err(EarthquakeInsuranceError::InvalidOracleData),
        Some(value) => {
            if normalize(&value) >= threshold {
                Ok(())
            } else {
                Err(EarthquakeInsuranceError::MagnitudeBelowThreshold)
            }
        },
    }
}

/// Checks that the feed presented is the one registered for the region, and
/// that it reports a magnitude at or above the threshold.
pub fn check_feed(region: u8, feeds: &RegionFeeds, feed: &AccountHandle, threshold: u64) -> (verdict:
    Result<(), EarthquakeInsuranceError>)
    ensures
        verdict == feed_verdict(region, feeds@, feed.key@, feed_value(feed.data@), threshold),
{
    let expected = match Region::from_u8(region) {
        Some(found) => feeds.feed(found),
        None => {
            return Err(EarthquakeInsuranceError::RegionNotSupported);
        },
    };
    proof {
        Address::lemma_same_bytes(expected, feed.key);
    }
    if expected.is_unset() || expected != feed.key {
        return Err(EarthquakeInsuranceError::InvalidFeed);
    }
    check_magnitude(read_feed(feed.data.as_slice()), threshold)
}

/// The typed entry point. Decides the claim of `amount` at the time `now`
/// and, where it allows the claim, marks the policy as claimed. A refusal
/// changes nothing.
pub fn transfer_hook(ctx: &mut TransferHook, amount: u64, now: i64) -> (verdict: Result<
    (),
    EarthquakeInsuranceError,
>)
    ensures
        verdict == combined(
            claim_verdict(
                old(ctx).user_account@,
                old(ctx).owner@,
                old(ctx).config.threshold_magnitude,
                old(ctx).region_feeds@,
                old(ctx).switchboard_feed.key@,
                feed_value(old(ctx).switchboard_feed.data@),
                amount,
                now,
            ),
        ),
        verdict is Ok ==> *final(ctx) == (TransferHook {
            user_account: UserAccount { has_claimed: true, ..old(ctx).user_account },
            ..*old(ctx)
        }),
        verdict is Err ==> *final(ctx) == *old(ctx),
        old(ctx).user_account.has_claimed ==> final(ctx).user_account.has_claimed,
{
    match check_eligibility(&ctx.user_account, &ctx.owner, amount, now) {
        Err(reason) => {
            return Err(reason.combined());
        },
        Ok(_) => {},
    }
    match check_feed(
        ctx.user_account.region,
        &ctx.region_feeds,
        &ctx.switchboard_feed,
        ctx.config.threshold_magnitude,
    ) {
        Err(reason) => {
            return Err(reason.combined());
        },
        Ok(_) => {},
    }
    ctx.user_account.has_claimed = true;
    Ok(())
}

/// The raw entry point. Decodes the instruction, picks the records out of
/// the flat account list by position, decides the claim at the time `now`
/// and, where it allows the claim, sets the claimed byte of the policy
/// record. A refusal changes nothing.
pub fn fallback(
    program_id: &Address,
    accounts: &mut Vec<AccountHandle>,
    data: &[u8],
    now: i64,
) -> (verdict: Result<(), EarthquakeInsuranceError>)
    ensures
        verdict == raw_claim_verdict(account_views(old(accounts)@), data@, now),
        account_views(final(accounts)@) == raw_claim_effect(account_views(old(accounts)@), verdict),
{
    let amount = match decode_execute(data) {
        Some(amount) => amount,
        None => {
            return Err(EarthquakeInsuranceError::InvalidInstruction);
        },
    };
    if accounts.len() < CLAIM_ACCOUNTS {
        return Err(EarthquakeInsuranceError::InvalidInstruction);
    }
    let config = match InsuranceConfig::unpack(accounts[CONFIG_AT].data.as_slice()) {
        Some(config) => config,
        None => {
            return Err(EarthquakeInsuranceError::InvalidInstruction);
        },
    };
    let policy = match UserAccount::unpack(accounts[USER_ACCOUNT_AT].data.as_slice()) {
        Some(policy) => policy,
        None => {
            return Err(EarthquakeInsuranceError::InvalidUserData);
        },
    };
    match check_eligibility(&policy, &accounts[OWNER_AT].key, amount, now) {
        Err(reason) => {
            return Err(reason);
        },
        Ok(_) => {},
    }
    let feeds = match RegionFeeds::unpack(accounts[REGION_FEEDS_AT].data.as_slice()) {
        Some(feeds) => feeds,
        None => {
            return Err(EarthquakeInsuranceError::InvalidInstruction);
        },
    };
    match check_feed(policy.region, &feeds, &accounts[FEED_AT], config.threshold_magnitude) {
        Err(reason) => {
            return Err(reason);
        },
        Ok(_) => {},
    }
    accounts[USER_ACCOUNT_AT].data[CLAIMED_AT] = 1;
    assert(account_views(accounts@) =~= raw_claim_effect(
        account_views(old(accounts)@),
        Ok::<(), EarthquakeInsuranceError>(()),
    ));
    Ok(())
}

} // verus!
