//! What each instruction of the insurance hook works on: the records and
//! identities that its caller has resolved for it.

use crate::account::AccountHandle;
use crate::address::Address;
use crate::earthquake::state::{DisasterEvent, InsuranceConfig, RegionFeeds, UserAccount};
use vstd::prelude::*;

verus! {

/// Accounts of `initialize_config`.
#[derive(Clone, Copy, Debug, PartialEq, Eq)]
pub struct InitializeConfig {
    /// The configuration record, freshly created.
    pub config: InsuranceConfig,
    /// Who signs the instruction and becomes the authority.
    pub authority: Address,
}

/// Accounts of `update_region_feed`.
#[derive(Clone, Copy, Debug, PartialEq, Eq)]
pub struct UpdateRegionFeed {
    /// The registry, all slots unset when it was just created.
    pub region_feeds: RegionFeeds,
    pub config: InsuranceConfig,
    /// Who signs the instruction.
    pub authority: Address,
}

/// Accounts of `register_user_location`.
#[derive(Clone, Copy, Debug, PartialEq, Eq)]
pub struct RegisterUserLocation {
    /// The policy slot of the user: empty until the user registers.
    pub user_account: Option<UserAccount>,
    /// Who signs the instruction and becomes the owner.
    pub user: Address,
}

/// Accounts of `initialize_extra_account_meta_list`.
#[derive(Debug, PartialEq, Eq)]
pub struct InitializeExtraAccountMetaList {
    /// The account that receives the list.
    pub extra_account_metas: AccountHandle,
    pub mint: Address,
    pub authority: Address,
}

/// Accounts of `transfer_hook`.
#[derive(Debug, PartialEq, Eq)]
pub struct TransferHook {
    /// The owner or delegate of the source of the transfer.
    pub owner: Address,
    pub config: InsuranceConfig,
    pub region_feeds: RegionFeeds,
    /// The policy on which the claim is made.
    pub user_account: UserAccount,
    /// The feed that the caller presents.
    pub switchboard_feed: AccountHandle,
}

/// Accounts of `record_disaster_event`.
#[derive(Clone, Copy, Debug, PartialEq, Eq)]
pub struct RecordDisasterEvent {
    /// The event slot of the region.
    pub disaster_event: DisasterEvent,
    pub config: InsuranceConfig,
    /// Who signs the instruction.
    pub authority: Address,
}

/// Accounts of `update_insurance_policy`.
#[derive(Clone, Copy, Debug, PartialEq, Eq)]
pub struct UpdateInsurancePolicy {
    pub user_account: UserAccount,
    /// Who signs the instruction.
    pub user: Address,
}

} // verus!
