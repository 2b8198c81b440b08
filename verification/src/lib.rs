//! Oracle-gated transfer authorization.
//!
//! Two transfer-hook policies share one scaffolding: an insurance claim is
//! allowed when the magnitude reported by the feed of the policy's region
//! reaches the configured threshold, and a payment is allowed when the amount
//! lies inside a tolerance band around the amount that two price feeds imply.
//! Every record has a fixed byte layout, and each policy can be entered with
//! typed records or with a raw instruction buffer and a flat account list.

pub mod account;
pub mod address;
pub mod bytes;
pub mod earthquake;
pub mod hook;
pub mod oracle;
pub mod pda;
pub mod price;
