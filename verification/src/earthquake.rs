//! The insurance hook: a claim is a transfer that is allowed once per
//! policy, inside the policy's window, up to the insured amount, and only
//! while the feed of the policy's region reports a magnitude at or above the
//! configured threshold.

pub mod claim;
pub mod context;
pub mod error;
pub mod instruction;
pub mod laws;
pub mod policy;
pub mod state;

pub use claim::{fallback, transfer_hook};
pub use context::{
    InitializeConfig, InitializeExtraAccountMetaList, RecordDisasterEvent, RegisterUserLocation,
    TransferHook, UpdateInsurancePolicy, UpdateRegionFeed,
};
pub use error::EarthquakeInsuranceError;
pub use instruction::Region;
pub use policy::{
    initialize_config, initialize_extra_account_meta_list, record_disaster_event,
    register_user_location, update_insurance_policy, update_region_feed,
};
pub use state::{DisasterEvent, InsuranceConfig, RegionFeeds, UserAccount};
