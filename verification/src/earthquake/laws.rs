//! What holds of every claim decision, on both entry points.

use crate::account::AccountView;
use crate::address::unset;
use crate::earthquake::claim::{
    claim_verdict, combined, eligibility, raw_claim_effect, raw_claim_verdict, CLAIM_ACCOUNTS,
    CONFIG_AT, FEED_AT, OWNER_AT, REGION_FEEDS_AT, USER_ACCOUNT_AT,
};
use crate::earthquake::error::EarthquakeInsuranceError;
use crate::earthquake::state::{
    InsuranceConfig, RegionFeeds, UserAccount, UserAccountView, CONFIG_LEN, REGION_FEEDS_LEN,
    USER_ACCOUNT_LEN,
};
use crate::hook::execute_amount;
use crate::oracle::{aggregator_tag, feed_value, FeedValue, AGGREGATOR_ACCOUNT_LEN};
use vstd::prelude::*;

verus! {

/// Whether the raw entry point finds an execute instruction and records of
/// full length at the positions of the configuration and the policy.
pub open spec fn raw_claim_decodes(accounts: Seq<AccountView>, data: Seq<u8>) -> bool {
    &&& execute_amount(data) is Some
    &&& accounts.len() >= CLAIM_ACCOUNTS
    &&& accounts[CONFIG_AT as int].data.len() >= CONFIG_LEN
    &&& accounts[USER_ACCOUNT_AT as int].data.len() >= USER_ACCOUNT_LEN
}

/// A policy that was claimed is refused as already processed when its owner
/// claims again, whatever the feed reports and whenever and for whatever
/// amount the claim is made.
pub proof fn law_claimed_policy_is_refused(
    policy: UserAccountView,
    caller: Seq<u8>,
    threshold: u64,
    feeds: Seq<Seq<u8>>,
    feed_key: Seq<u8>,
    reading: Option<FeedValue>,
    amount: u64,
    now: i64,
)
    requires
        policy.has_claimed,
        policy.owner == caller,
    ensures
        claim_verdict(policy, caller, threshold, feeds, feed_key, reading, amount, now) == Err::<
            (),
            EarthquakeInsuranceError,
        >(EarthquakeInsuranceError::ClaimAlreadyProcessed),
        combined(claim_verdict(policy, caller, threshold, feeds, feed_key, reading, amount, now))
            == Err::<(), EarthquakeInsuranceError>(EarthquakeInsuranceError::ClaimAlreadyProcessed),
{
}

/// A claim is allowed on an unclaimed policy only, and once it was allowed,
/// every further claim of the owner on the policy is refused as already
/// processed: with another feed, threshold, amount or time, too.
pub proof fn law_claim_is_allowed_once(
    policy: UserAccountView,
    caller: Seq<u8>,
    threshold: u64,
    feeds: Seq<Seq<u8>>,
    feed_key: Seq<u8>,
    reading: Option<FeedValue>,
    amount: u64,
    now: i64,
    later_threshold: u64,
    later_feeds: Seq<Seq<u8>>,
    later_feed_key: Seq<u8>,
    later_reading: Option<FeedValue>,
    later_amount: u64,
    later: i64,
)
    requires
        claim_verdict(policy, caller, threshold, feeds, feed_key, reading, amount, now) is Ok,
    ensures
        !policy.has_claimed,
        claim_verdict(
            policy.claimed(),
            caller,
            later_threshold,
            later_feeds,
            later_feed_key,
            later_reading,
            later_amount,
            later,
        ) == Err::<(), EarthquakeInsuranceError>(EarthquakeInsuranceError::ClaimAlreadyProcessed),
{
}

/// On the raw entry point, too, a policy that was claimed is refused as
/// already processed when its owner claims again.
pub proof fn law_raw_claimed_policy_is_refused(accounts: Seq<AccountView>, data: Seq<u8>, now: i64)
    requires
        raw_claim_decodes(accounts, data),
        UserAccount::decode(accounts[USER_ACCOUNT_AT as int].data).has_claimed,
        UserAccount::decode(accounts[USER_ACCOUNT_AT as int].data).owner
            == accounts[OWNER_AT as int].key@,
    ensures
        raw_claim_verdict(accounts, data, now) == Err::<(), EarthquakeInsuranceError>(
            EarthquakeInsuranceError::ClaimAlreadyProcessed,
        ),
{
}

/// On the raw entry point, a claim that was allowed leaves a policy record
/// on which every further claim of the owner is refused as already processed.
pub proof fn law_raw_claim_is_allowed_once(
    accounts: Seq<AccountView>,
    data: Seq<u8>,
    now: i64,
    later_data: Seq<u8>,
    later: i64,
)
    requires
        raw_claim_verdict(accounts, data, now) is Ok,
        execute_amount(later_data) is Some,
    ensures
        !UserAccount::decode(accounts[USER_ACCOUNT_AT as int].data).has_claimed,
        raw_claim_verdict(
            raw_claim_effect(accounts, raw_claim_verdict(accounts, data, now)),
            later_data,
            later,
        ) == Err::<(), EarthquakeInsuranceError>(EarthquakeInsuranceError::ClaimAlreadyProcessed),
{
    let record = accounts[USER_ACCOUNT_AT as int].data;
    UserAccount::lemma_claimed_bytes(record);
}

/// A claim before the window opens or after it closes is refused, on both
/// entry points.
pub proof fn law_claim_outside_window_is_refused(
    policy: UserAccountView,
    caller: Seq<u8>,
    threshold: u64,
    feeds: Seq<Seq<u8>>,
    feed_key: Seq<u8>,
    reading: Option<FeedValue>,
    amount: u64,
    now: i64,
)
    requires
        now < policy.policy_start_time || now > policy.policy_end_time,
    ensures
        claim_verdict(policy, caller, threshold, feeds, feed_key, reading, amount, now) is Err,
        combined(
            claim_verdict(policy, caller, threshold, feeds, feed_key, reading, amount, now),
        ) is Err,
{
}

/// The raw entry point refuses a claim outside the window of the stored
/// policy.
pub proof fn law_raw_claim_outside_window_is_refused(
    accounts: Seq<AccountView>,
    data: Seq<u8>,
    now: i64,
)
    requires
        accounts.len() >= CLAIM_ACCOUNTS,
        now < UserAccount::decode(accounts[USER_ACCOUNT_AT as int].data).policy_start_time || now
            > UserAccount::decode(accounts[USER_ACCOUNT_AT as int].data).policy_end_time,
    ensures
        raw_claim_verdict(accounts, data, now) is Err,
{
}

/// A claim of more than the insured amount is refused, on both entry points.
pub proof fn law_excess_claim_is_refused(
    policy: UserAccountView,
    caller: Seq<u8>,
    threshold: u64,
    feeds: Seq<Seq<u8>>,
    feed_key: Seq<u8>,
    reading: Option<FeedValue>,
    amount: u64,
    now: i64,
)
    requires
        amount > policy.insurance_amount,
    ensures
        claim_verdict(policy, caller, threshold, feeds, feed_key, reading, amount, now) is Err,
        combined(
            claim_verdict(policy, caller, threshold, feeds, feed_key, reading, amount, now),
        ) is Err,
{
}

/// The raw entry point refuses a claim of more than the stored policy
/// insures.
pub proof fn law_raw_excess_claim_is_refused(accounts: Seq<AccountView>, data: Seq<u8>, now: i64)
    requires
        accounts.len() >= CLAIM_ACCOUNTS,
        execute_amount(data) matches Some(amount) ==> amount > UserAccount::decode(
            accounts[USER_ACCOUNT_AT as int].data,
        ).insurance_amount,
    ensures
        raw_claim_verdict(accounts, data, now) is Err,
{
}

/// An eligible claim that presents another feed than the one registered for
/// the region of the policy, or whose region has no feed registered, is
/// refused as an invalid feed, whatever the feed presented reports.
pub proof fn law_wrong_feed_is_refused(
    policy: UserAccountView,
    caller: Seq<u8>,
    threshold: u64,
    feeds: Seq<Seq<u8>>,
    feed_key: Seq<u8>,
    reading: Option<FeedValue>,
    amount: u64,
    now: i64,
)
    requires
        eligibility(policy, caller, amount, now) is Ok,
        policy.region < 5,
        feeds[policy.region as int] != feed_key || unset(feeds[policy.region as int]),
    ensures
        claim_verdict(policy, caller, threshold, feeds, feed_key, reading, amount, now) == Err::<
            (),
            EarthquakeInsuranceError,
        >(EarthquakeInsuranceError::InvalidFeed),
{
}

/// An eligible claim on a feed that is registered for the region of the
/// policy but whose account is too short for an aggregator or starts with
/// another tag is refused as invalid oracle data.
pub proof fn law_malformed_feed_is_refused(
    policy: UserAccountView,
    caller: Seq<u8>,
    threshold: u64,
    feeds: Seq<Seq<u8>>,
    feed_key: Seq<u8>,
    feed_data: Seq<u8>,
    amount: u64,
    now: i64,
)
    requires
        eligibility(policy, caller, amount, now) is Ok,
        policy.region < 5,
        feeds[policy.region as int] == feed_key,
        !unset(feed_key),
        feed_data.len() < AGGREGATOR_ACCOUNT_LEN || feed_data.subrange(0, 8) != aggregator_tag(),
    ensures
        claim_verdict(
            policy,
            caller,
            threshold,
            feeds,
            feed_key,
            feed_value(feed_data),
            amount,
            now,
        ) == Err::<(), EarthquakeInsuranceError>(EarthquakeInsuranceError::InvalidOracleData),
{
}

/// The raw entry point never takes a claim back: a policy record that was
/// claimed before the decision is claimed after it.
pub proof fn law_raw_claimed_stays_claimed(accounts: Seq<AccountView>, data: Seq<u8>, now: i64)
    requires
        accounts.len() >= CLAIM_ACCOUNTS,
        accounts[USER_ACCOUNT_AT as int].data.len() >= USER_ACCOUNT_LEN,
        UserAccount::decode(accounts[USER_ACCOUNT_AT as int].data).has_claimed,
    ensures
        UserAccount::decode(
            raw_claim_effect(
                accounts,
                raw_claim_verdict(accounts, data, now),
            )[USER_ACCOUNT_AT as int].data,
        ).has_claimed,
{
}

/// A refusal changes no account of the raw entry point.
pub proof fn law_raw_refusal_changes_nothing(accounts: Seq<AccountView>, data: Seq<u8>, now: i64)
    requires
        raw_claim_verdict(accounts, data, now) is Err,
    ensures
        raw_claim_effect(accounts, raw_claim_verdict(accounts, data, now)) == accounts,
{
}

/// The two entry points agree. Where the raw one finds an execute
/// instruction and records of full length, it allows exactly the claims that
/// the typed one allows on the records decoded, it refuses for the reason of
/// the typed one but for the finer names of a claim outside the window or
/// over the insured amount, and on success the policy record holds the bytes
/// of the policy that the typed one leaves.
pub proof fn law_entry_points_agree(accounts: Seq<AccountView>, data: Seq<u8>, now: i64)
    requires
        raw_claim_decodes(accounts, data),
        accounts[REGION_FEEDS_AT as int].data.len() >= REGION_FEEDS_LEN,
    ensures
        ({
            let raw = raw_claim_verdict(accounts, data, now);
            let record = accounts[USER_ACCOUNT_AT as int].data;
            let policy = UserAccount::decode(record);
            let typed = combined(
                claim_verdict(
                    policy,
                    accounts[OWNER_AT as int].key@,
                    InsuranceConfig::decode(accounts[CONFIG_AT as int].data).threshold_magnitude,
                    RegionFeeds::decode(accounts[REGION_FEEDS_AT as int].data),
                    accounts[FEED_AT as int].key@,
                    feed_value(accounts[FEED_AT as int].data),
                    execute_amount(data)->0,
                    now,
                ),
            );
            let after = raw_claim_effect(accounts, raw)[USER_ACCOUNT_AT as int].data;
            &&& typed == combined(raw)
            &&& raw is Ok <==> typed is Ok
            &&& raw is Ok ==> after == UserAccount::encode(policy.claimed(), record)
                && UserAccount::decode(after) == policy.claimed()
            &&& raw is Err ==> after == record
        }),
{
    UserAccount::lemma_claimed_bytes(accounts[USER_ACCOUNT_AT as int].data);
}

} // verus!
