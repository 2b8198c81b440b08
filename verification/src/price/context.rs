//! What each instruction of the payment hook works on: the records and
//! identities that its caller has resolved for it.

use crate::account::AccountHandle;
use crate::address::Address;
use crate::price::state::PriceValidationState;
use vstd::prelude::*;

verus! {

/// Accounts of `transfer_hook`.
#[derive(Debug, PartialEq, Eq)]
pub struct TransferHook {
    pub state: PriceValidationState,
    /// The feed that gives the price of the product.
    pub product_price_feed: AccountHandle,
    /// The feed that gives the price of the token.
    pub token_usd_price_feed: AccountHandle,
}

/// Accounts of `update_price_validation_config`.
#[derive(Clone, Copy, Debug, PartialEq, Eq)]
pub struct UpdateConfig {
    pub state: PriceValidationState,
    /// Who signs the instruction.
    pub authority: Address,
}

/// Accounts of `initialize_extra_account_meta_list`.
#[derive(Debug, PartialEq, Eq)]
pub struct InitializeExtraAccountMetaList {
    /// The account that receives the list.
    pub extra_account_metas: AccountHandle,
    pub mint: Address,
    pub authority: Address,
}

/// Accounts of `initialize_state`.
#[derive(Clone, Copy, Debug, PartialEq, Eq)]
pub struct InitializeState {
    /// The state record, freshly created.
    pub state: PriceValidationState,
    /// The address of the feed that gives the price of the product.
    pub product_price_feed: Address,
    /// The address of the feed that gives the price of the token.
    pub token_usd_price_feed: Address,
    /// Who pays for the record.
    pub payer: Address,
}

} // verus!
