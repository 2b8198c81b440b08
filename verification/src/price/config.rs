//! Creating and changing the state of the payment hook, and announcing its
//! extra accounts.

use crate::address::Address;
use crate::pda::{
    derive_address, derived_address, meta_list_bytes, meta_list_fits, meta_views,
    store_meta_list, ExtraAccountMeta, ExtraAccountMetaView,
};
use crate::price::context::{InitializeExtraAccountMetaList, InitializeState, UpdateConfig};
use crate::price::error::PriceValidationError;
use crate::price::state::PriceValidationState;
use vstd::prelude::*;
use vstd::string::StringSliceAdditionalSpecFns;

verus! {

/// Creates the state: the addresses of the two feeds presented, the
/// tolerance and the switch. Nothing is refused.
pub fn initialize_state(
    ctx: &mut InitializeState,
    tolerance_basis_points: u64,
    is_price_validation_active: bool,
) -> (done: Result<(), PriceValidationError>)
    ensures
        done is Ok,
        *final(ctx) == (InitializeState {
            state: PriceValidationState {
                product_price_feed_pubkey: old(ctx).product_price_feed,
                token_usd_price_feed_pubkey: old(ctx).token_usd_price_feed,
                tolerance_basis_points,
                is_price_validation_active,
            },
            ..*old(ctx)
        }),
{
    ctx.state.product_price_feed_pubkey = ctx.product_price_feed;
    ctx.state.token_usd_price_feed_pubkey = ctx.token_usd_price_feed;
    ctx.state.tolerance_basis_points = tolerance_basis_points;
    ctx.state.is_price_validation_active = is_price_validation_active;
    Ok(())
}

/// Changes the state. Each value that is given replaces the field it stands
/// for; what is not given stays. Nothing is refused.
pub fn update_price_validation_config(
    ctx: &mut UpdateConfig,
    product_price_feed_pubkey: Option<Address>,
    token_usd_price_feed_pubkey: Option<Address>,
    is_active: Option<bool>,
    tolerance_basis_points: Option<u64>,
) -> (done: Result<(), PriceValidationError>)
    ensures
        done is Ok,
        *final(ctx) == (UpdateConfig {
            state: PriceValidationState {
                product_price_feed_pubkey: match product_price_feed_pubkey {
                    Some(feed) => feed,
                    None => old(ctx).state.product_price_feed_pubkey,
                },
                token_usd_price_feed_pubkey: match token_usd_price_feed_pubkey {
                    Some(feed) => feed,
                    None => old(ctx).state.token_usd_price_feed_pubkey,
                },
                tolerance_basis_points: match tolerance_basis_points {
                    Some(tolerance) => tolerance,
                    None => old(ctx).state.tolerance_basis_points,
                },
                is_price_validation_active: match is_active {
                    Some(active) => active,
                    None => old(ctx).state.is_price_validation_active,
                },
            },
            ..*old(ctx)
        }),
{
    match product_price_feed_pubkey {
        Some(feed) => {
            ctx.state.product_price_feed_pubkey = feed;
        },
        None => {},
    }
    match token_usd_price_feed_pubkey {
        Some(feed) => {
            ctx.state.token_usd_price_feed_pubkey = feed;
        },
        None => {},
    }
    match is_active {
        Some(active) => {
            ctx.state.is_price_validation_active = active;
        },
        None => {},
    }
    match tolerance_basis_points {
        Some(tolerance) => {
            ctx.state.tolerance_basis_points = tolerance;
        },
        None => {},
    }
    Ok(())
}

/// An entry of the list that nobody signs for and nobody writes.
pub open spec fn read_only_meta(pubkey: Seq<u8>) -> ExtraAccountMetaView {
    ExtraAccountMetaView { pubkey, is_signer: false, is_writable: false }
}

/// The extra accounts of the payment hook under `program_id`: the state and
/// the two feeds, at their derived addresses. Nothing where an address cannot
/// be derived.
pub open spec fn extra_account_metas_of(program_id: Address) -> Option<Seq<ExtraAccountMetaView>> {
    match (
        derived_address("state_v3".spec_bytes(), program_id),
        derived_address("product_price_feed".spec_bytes(), program_id),
        derived_address("token_usd_price_feed".spec_bytes(), program_id),
    ) {
        (Some(state), Some(product), Some(token)) => Some(
            seq![read_only_meta(state), read_only_meta(product), read_only_meta(token)],
        ),
        _ => None,
    }
}

/// Lists the extra accounts of the payment hook under `program_id`.
pub fn extra_account_metas(program_id: &Address) -> (metas: Option<Vec<ExtraAccountMeta>>)
    ensures
        match metas {
            Some(list) => extra_account_metas_of(*program_id) == Some(meta_views(list@)),
            None => extra_account_metas_of(*program_id) is None,
        },
{
    let state = match derive_address("state_v3".as_bytes(), program_id) {
        Some(address) => address,
        None => {
            return None;
        },
    };
    let product = match derive_address("product_price_feed".as_bytes(), program_id) {
        Some(address) => address,
        None => {
            return None;
        },
    };
    let token = match derive_address("token_usd_price_feed".as_bytes(), program_id) {
        Some(address) => address,
        None => {
            return None;
        },
    };
    let mut list: Vec<ExtraAccountMeta> = Vec::new();
    list.push(ExtraAccountMeta { pubkey: state, is_signer: false, is_writable: false });
    list.push(ExtraAccountMeta { pubkey: product, is_signer: false, is_writable: false });
    list.push(ExtraAccountMeta { pubkey: token, is_signer: false, is_writable: false });
    proof {
        assert(meta_views(list@) =~= extra_account_metas_of(*program_id)->0);
    }
    Some(list)
}

/// Writes the list of extra accounts into the account that announces them,
/// over whatever it held. Where an address cannot be derived or the account
/// has no room for the list, nothing is written and the answer is `false`.
pub fn initialize_extra_account_meta_list(
    ctx: &mut InitializeExtraAccountMetaList,
    program_id: &Address,
) -> (written: bool)
    ensures
        written == match extra_account_metas_of(*program_id) {
            Some(metas) => meta_list_fits(metas.len(), old(ctx).extra_account_metas.data@.len()),
            None => false,
        },
        written ==> final(ctx).extra_account_metas.data@ == meta_list_bytes(
            extra_account_metas_of(*program_id)->0,
            old(ctx).extra_account_metas.data@.len(),
        ),
        !written ==> final(ctx).extra_account_metas.data@ == old(ctx).extra_account_metas.data@,
        final(ctx).extra_account_metas.key == old(ctx).extra_account_metas.key,
        final(ctx).mint == old(ctx).mint,
        final(ctx).authority == old(ctx).authority,
{
    let metas = match extra_account_metas(program_id) {
        Some(metas) => metas,
        None => {
            return false;
        },
    };
    assert(meta_views(metas@).len() == metas@.len());
    store_meta_list(&mut ctx.extra_account_metas.data, &metas)
}

} // verus!
