//! The policy store: creating the configuration, filling the feed registry,
//! registering and revising policies, recording disasters, and announcing the
//! extra accounts of the hook.

use crate::address::Address;
use crate::earthquake::context::{
    InitializeConfig, InitializeExtraAccountMetaList, RecordDisasterEvent, RegisterUserLocation,
    UpdateInsurancePolicy, UpdateRegionFeed,
};
use crate::earthquake::error::EarthquakeInsuranceError;
use crate::earthquake::instruction::Region;
use crate::earthquake::state::{
    magnitude_in_range, DisasterEvent, InsuranceConfig, UserAccount, MAX_MAGNITUDE,
    MIN_MAGNITUDE,
};
use crate::pda::{
    derive_address, derived_address, meta_list_bytes, meta_list_fits, meta_views,
    store_meta_list, ExtraAccountMeta, ExtraAccountMetaView,
};
use vstd::prelude::*;
use vstd::string::StringSliceAdditionalSpecFns;

verus! {

/// Seconds in a day.
pub const SECONDS_PER_DAY: i64 = 86400;

/// The end of a window that starts at `start` and lasts `days` days.
pub open spec fn window_end(start: i64, days: u64) -> int {
    start + days * 86400
}

/// Creates the configuration: the threshold, in hundredths, and the signer
/// as authority. A threshold outside 2.00 to 9.00 is refused as invalid
/// oracle data, and nothing changes.
pub fn initialize_config(ctx: &mut InitializeConfig, threshold_magnitude: u64) -> (done: Result<
    (),
    EarthquakeInsuranceError,
>)
    ensures
        done == if magnitude_in_range(threshold_magnitude) {
            Ok::<(), EarthquakeInsuranceError>(())
        } else {
            Err(EarthquakeInsuranceError::InvalidOracleData)
        },
        done is Ok ==> *final(ctx) == (InitializeConfig {
            config: InsuranceConfig { threshold_magnitude, authority: old(ctx).authority },
            ..*old(ctx)
        }) && final(ctx).config.wf(),
        done is Err ==> *final(ctx) == *old(ctx),
{
    if threshold_magnitude < MIN_MAGNITUDE || threshold_magnitude > MAX_MAGNITUDE {
        return Err(EarthquakeInsuranceError::InvalidOracleData);
    }
    ctx.config.threshold_magnitude = threshold_magnitude;
    ctx.config.authority = ctx.authority;
    Ok(())
}

/// Sets the registry slot of `region` to `feed_pubkey`. Only the authority
/// of the configuration may do so; anyone else is refused as unauthorized,
/// and nothing changes. The other slots stay as they are.
pub fn update_region_feed(ctx: &mut UpdateRegionFeed, region: Region, feed_pubkey: Address) -> (done:
    Result<(), EarthquakeInsuranceError>)
    ensures
        done == if old(ctx).config.authority == old(ctx).authority {
            Ok::<(), EarthquakeInsuranceError>(())
        } else {
            Err(EarthquakeInsuranceError::UnauthorizedClaim)
        },
        done is Ok ==> final(ctx).region_feeds@ == old(ctx).region_feeds@.update(
            region.spec_tag() as int,
            feed_pubkey@,
        ),
        done is Err ==> final(ctx).region_feeds == old(ctx).region_feeds,
        final(ctx).config == old(ctx).config,
        final(ctx).authority == old(ctx).authority,
{
    if ctx.config.authority != ctx.authority {
        return Err(EarthquakeInsuranceError::UnauthorizedClaim);
    }
    match region {
        Region::Northeast => {
            ctx.region_feeds.northeast_feed = feed_pubkey;
        },
        Region::Southeast => {
            ctx.region_feeds.southeast_feed = feed_pubkey;
        },
        Region::Midwest => {
            ctx.region_feeds.midwest_feed = feed_pubkey;
        },
        Region::Southwest => {
            ctx.region_feeds.southwest_feed = feed_pubkey;
        },
        Region::West => {
            ctx.region_feeds.west_feed = feed_pubkey;
        },
    }
    assert(ctx.region_feeds@ =~= old(ctx).region_feeds@.update(
        region.spec_tag() as int,
        feed_pubkey@,
    ));
    Ok(())
}

/// Registers a policy for the signer: unclaimed, with a window that opens at
/// `now` and lasts `duration_in_days` days. A slot that already holds a
/// policy is refused as invalid user data, and keeps its policy. The region
/// is not checked here.
pub fn register_user_location(
    ctx: &mut RegisterUserLocation,
    region: Region,
    insurance_amount: u64,
    premium: u64,
    duration_in_days: u64,
    now: i64,
) -> (done: Result<(), EarthquakeInsuranceError>)
    requires
        old(ctx).user_account is None ==> window_end(now, duration_in_days) <= i64::MAX,
    ensures
        done == if old(ctx).user_account is None {
            Ok::<(), EarthquakeInsuranceError>(())
        } else {
            Err(EarthquakeInsuranceError::InvalidUserData)
        },
        done is Ok ==> *final(ctx) == (RegisterUserLocation {
            user_account: Some(
                UserAccount {
                    owner: old(ctx).user,
                    region: region.spec_tag(),
                    has_claimed: false,
                    insurance_amount,
                    premium_paid: premium,
                    policy_start_time: now,
                    policy_end_time: window_end(now, duration_in_days) as i64,
                },
            ),
            ..*old(ctx)
        }),
        done is Ok ==> (final(ctx).user_account->0.wf() <==> duration_in_days > 0),
        done is Err ==> *final(ctx) == *old(ctx),
{
    if ctx.user_account.is_some() {
        return Err(EarthquakeInsuranceError::InvalidUserData);
    }
    let end: i128 = now as i128 + (duration_in_days as i128) * (SECONDS_PER_DAY as i128);
    ctx.user_account = Some(
        UserAccount {
            owner: ctx.user,
            region: region.tag(),
            has_claimed: false,
            insurance_amount,
            premium_paid: premium,
            policy_start_time: now,
            policy_end_time: end as i64,
        },
    );
    Ok(())
}

/// Whether `update_insurance_policy` would change the policy.
pub open spec fn may_revise(ctx: UpdateInsurancePolicy) -> bool {
    ctx.user_account.owner == ctx.user && !ctx.user_account.has_claimed
}

/// Revises an open policy. Only its owner may do so, and only before it is
/// claimed. Each value that is given replaces the insured amount or the
/// premium, or extends the window by that many days; what is not given stays.
pub fn update_insurance_policy(
    ctx: &mut UpdateInsurancePolicy,
    insurance_amount: Option<u64>,
    premium: Option<u64>,
    duration_extension_days: Option<u64>,
) -> (done: Result<(), EarthquakeInsuranceError>)
    requires
        may_revise(*old(ctx)) ==> (duration_extension_days matches Some(days) ==> window_end(
            old(ctx).user_account.policy_end_time,
            days,
        ) <= i64::MAX),
    ensures
        done == if old(ctx).user_account.owner != old(ctx).user {
            Err(EarthquakeInsuranceError::UserLocationNotRegistered)
        } else if old(ctx).user_account.has_claimed {
            Err(EarthquakeInsuranceError::ClaimAlreadyProcessed)
        } else {
            Ok::<(), EarthquakeInsuranceError>(())
        },
        done is Ok ==> *final(ctx) == (UpdateInsurancePolicy {
            user_account: UserAccount {
                insurance_amount: match insurance_amount {
                    Some(amount) => amount,
                    None => old(ctx).user_account.insurance_amount,
                },
                premium_paid: match premium {
                    Some(paid) => paid,
                    None => old(ctx).user_account.premium_paid,
                },
                policy_end_time: match duration_extension_days {
                    Some(days) => window_end(old(ctx).user_account.policy_end_time, days) as i64,
                    None => old(ctx).user_account.policy_end_time,
                },
                ..old(ctx).user_account
            },
            ..*old(ctx)
        }),
        done is Ok && old(ctx).user_account.wf() ==> final(ctx).user_account.wf(),
        done is Err ==> *final(ctx) == *old(ctx),
        final(ctx).user_account.has_claimed == old(ctx).user_account.has_claimed,
{
    if ctx.user_account.owner != ctx.user {
        return Err(EarthquakeInsuranceError::UserLocationNotRegistered);
    }
    if ctx.user_account.has_claimed {
        return Err(EarthquakeInsuranceError::ClaimAlreadyProcessed);
    }
    match insurance_amount {
        Some(amount) => {
            ctx.user_account.insurance_amount = amount;
        },
        None => {},
    }
    match premium {
        Some(paid) => {
            ctx.user_account.premium_paid = paid;
        },
        None => {},
    }
    match duration_extension_days {
        Some(days) => {
            let end: i128 = ctx.user_account.policy_end_time as i128 + (days as i128) * (
            SECONDS_PER_DAY as i128);
            ctx.user_account.policy_end_time = end as i64;
        },
        None => {},
    }
    Ok(())
}

/// Records a disaster in the event slot of `region`: its magnitude, in
/// hundredths, the time `now`, verified. Only the authority of the
/// configuration may do so; anyone else is refused as unauthorized. A
/// magnitude outside 2.00 to 9.00 is refused as invalid oracle data. A
/// refusal changes nothing.
pub fn record_disaster_event(
    ctx: &mut RecordDisasterEvent,
    region: Region,
    magnitude: u64,
    now: i64,
) -> (done: Result<(), EarthquakeInsuranceError>)
    ensures
        done == if old(ctx).config.authority != old(ctx).authority {
            Err(EarthquakeInsuranceError::UnauthorizedClaim)
        } else if !magnitude_in_range(magnitude) {
            Err(EarthquakeInsuranceError::InvalidOracleData)
        } else {
            Ok::<(), EarthquakeInsuranceError>(())
        },
        done is Ok ==> *final(ctx) == (RecordDisasterEvent {
            disaster_event: DisasterEvent {
                region: region.spec_tag(),
                magnitude,
                timestamp: now,
                verified: true,
            },
            ..*old(ctx)
        }) && final(ctx).disaster_event.wf(),
        done is Err ==> *final(ctx) == *old(ctx),
{
    if ctx.config.authority != ctx.authority {
        return Err(EarthquakeInsuranceError::UnauthorizedClaim);
    }
    if magnitude < MIN_MAGNITUDE || magnitude > MAX_MAGNITUDE {
        return Err(EarthquakeInsuranceError::InvalidOracleData);
    }
    ctx.disaster_event.region = region.tag();
    ctx.disaster_event.magnitude = magnitude;
    ctx.disaster_event.timestamp = now;
    ctx.disaster_event.verified = true;
    Ok(())
}

/// An entry of the list that nobody signs for.
pub open spec fn unsigned_meta(pubkey: Seq<u8>, is_writable: bool) -> ExtraAccountMetaView {
    ExtraAccountMetaView { pubkey, is_signer: false, is_writable }
}

/// The extra accounts of the insurance hook under `program_id`: the
/// configuration and the registry at their derived addresses, then the policy
/// record, which the hook writes, and the feed, both left for the caller to
/// name. Nothing where an address cannot be derived.
pub open spec fn extra_account_metas_of(program_id: Address) -> Option<Seq<ExtraAccountMetaView>> {
    match (
        derived_address("config".spec_bytes(), program_id),
        derived_address("region_feeds".spec_bytes(), program_id),
    ) {
        (Some(config), Some(region_feeds)) => Some(
            seq![
                unsigned_meta(config, false),
                unsigned_meta(region_feeds, false),
                unsigned_meta(Seq::new(32, |i: int| 0u8), true),
                unsigned_meta(Seq::new(32, |i: int| 0u8), false),
            ],
        ),
        _ => None,
    }
}

/// Lists the extra accounts of the insurance hook under `program_id`.
pub fn extra_account_metas(program_id: &Address) -> (metas: Option<Vec<ExtraAccountMeta>>)
    ensures
        match metas {
            Some(list) => extra_account_metas_of(*program_id) == Some(meta_views(list@)),
            None => extra_account_metas_of(*program_id) is None,
        },
{
    let config = match derive_address("config".as_bytes(), program_id) {
        Some(address) => address,
        None => {
            return None;
        },
    };
    let region_feeds = match derive_address("region_feeds".as_bytes(), program_id) {
        Some(address) => address,
        None => {
            return None;
        },
    };
    let unset = Address::default();
    let mut list: Vec<ExtraAccountMeta> = Vec::new();
    list.push(ExtraAccountMeta { pubkey: config, is_signer: false, is_writable: false });
    list.push(ExtraAccountMeta { pubkey: region_feeds, is_signer: false, is_writable: false });
    list.push(ExtraAccountMeta { pubkey: unset, is_signer: false, is_writable: true });
    list.push(ExtraAccountMeta { pubkey: unset, is_signer: false, is_writable: false });
    proof {
        assert(unset@ =~= Seq::new(32, |i: int| 0u8));
        assert(meta_views(list@) =~= extra_account_metas_of(*program_id)->0);
    }
    Some(list)
}

/// Writes the list of extra accounts into the account that announces them,
/// over whatever it held. Where an address cannot be derived or the account
/// has no room for the list, nothing is written and the answer is `false`.
pub fn initialize_extra_account_meta_list(
    ctx: &mut InitializeExtraAccountMetaList,
    program_id: &Address,
) -> (written: bool)
    ensures
        written == match extra_account_metas_of(*program_id) {
            Some(metas) => meta_list_fits(metas.len(), old(ctx).extra_account_metas.data@.len()),
            None => false,
        },
        written ==> final(ctx).extra_account_metas.data@ == meta_list_bytes(
            extra_account_metas_of(*program_id)->0,
            old(ctx).extra_account_metas.data@.len(),
        ),
        !written ==> final(ctx).extra_account_metas.data@ == old(ctx).extra_account_metas.data@,
        final(ctx).extra_account_metas.key == old(ctx).extra_account_metas.key,
        final(ctx).mint == old(ctx).mint,
        final(ctx).authority == old(ctx).authority,
{
    let metas = match extra_account_metas(program_id) {
        Some(metas) => metas,
        None => {
            return false;
        },
    };
    assert(meta_views(metas@).len() == metas@.len());
    store_meta_list(&mut ctx.extra_account_metas.data, &metas)
}

} // verus!
