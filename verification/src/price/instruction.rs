//! The administrative instructions of the single-feed payment hook, as
//! values.

use crate::address::Address;
use vstd::prelude::*;

verus! {

/// An administrative instruction of the payment hook in its single-feed
/// form, which knows one price feed and a tolerance of sixteen bits.
#[allow(inconsistent_fields)]
#[derive(Clone, Copy, Debug, PartialEq, Eq)]
pub enum PriceValidationInstruction {
    /// Create the state with a price feed and a tolerance.
    InitializeState { price_feed_pubkey: Address, tolerance_basis_points: u16 },
    /// Replace the price feed, the tolerance, or both.
    UpdateConfig { price_feed_pubkey: Option<Address>, tolerance_basis_points: Option<u16> },
}

} // verus!
