//! The state of the payment hook and its byte layout.
//!
//! The stored record starts with an eight-byte tag that the hook never
//! interprets. The fields follow without padding, the tolerance least
//! significant byte first.

use crate::address::Address;
use crate::bytes::{le_u64, overlay, read_u64_le, u64_le_bytes, write_u64_le};
use crate::bytes::{lemma_u64_bytes_round_trip, lemma_u64_round_trip};
use crate::pda::flag_byte;
use vstd::prelude::*;

verus! {

/// Length of a stored state: tag, two feed addresses, tolerance, active flag.
pub const STATE_LEN: usize = 81;

/// The state of the payment hook: the two configured feeds, the tolerance in
/// basis points, and whether validation is switched on.
#[derive(Clone, Copy, Debug, PartialEq, Eq)]
pub struct PriceValidationState {
    pub product_price_feed_pubkey: Address,
    pub token_usd_price_feed_pubkey: Address,
    pub tolerance_basis_points: u64,
    pub is_price_validation_active: bool,
}

/// What a state stands for.
pub struct PriceValidationStateView {
    pub product_price_feed_pubkey: Seq<u8>,
    pub token_usd_price_feed_pubkey: Seq<u8>,
    pub tolerance_basis_points: u64,
    pub is_price_validation_active: bool,
}

impl View for PriceValidationState {
    type V = PriceValidationStateView;

    open spec fn view(&self) -> PriceValidationStateView {
        PriceValidationStateView {
            product_price_feed_pubkey: self.product_price_feed_pubkey@,
            token_usd_price_feed_pubkey: self.token_usd_price_feed_pubkey@,
            tolerance_basis_points: self.tolerance_basis_points,
            is_price_validation_active: self.is_price_validation_active,
        }
    }
}

impl PriceValidationState {
    /// The state that the bytes of a stored record hold. Any active byte but
    /// zero means that validation is switched on.
    pub open spec fn decode(data: Seq<u8>) -> PriceValidationStateView
        recommends
            data.len() >= STATE_LEN,
    {
        PriceValidationStateView {
            product_price_feed_pubkey: data.subrange(8, 40),
            token_usd_price_feed_pubkey: data.subrange(40, 72),
            tolerance_basis_points: le_u64(data.subrange(72, 80)) as u64,
            is_price_validation_active: data[80] != 0,
        }
    }

    /// `base` with the state written behind its tag.
    pub open spec fn encode(state: PriceValidationStateView, base: Seq<u8>) -> Seq<u8>
        recommends
            base.len() >= STATE_LEN,
            state.product_price_feed_pubkey.len() == 32,
            state.token_usd_price_feed_pubkey.len() == 32,
    {
        let product = overlay(base, 8, state.product_price_feed_pubkey);
        let token = overlay(product, 40, state.token_usd_price_feed_pubkey);
        let tolerance = overlay(token, 72, u64_le_bytes(state.tolerance_basis_points as int));
        tolerance.update(80, flag_byte(state.is_price_validation_active))
    }

    /// Reads a state out of a stored record, if the buffer holds one.
    pub fn unpack(data: &[u8]) -> (state: Option<PriceValidationState>)
        ensures
            state is Some <==> data@.len() >= STATE_LEN,
            state matches Some(found) ==> found@ == PriceValidationState::decode(data@),
    {
        if data.len() < STATE_LEN {
            return None;
        }
        Some(
            PriceValidationState {
                product_price_feed_pubkey: Address::read(data, 8),
                token_usd_price_feed_pubkey: Address::read(data, 40),
                tolerance_basis_points: read_u64_le(data, 72),
                is_price_validation_active: data[80] != 0,
            },
        )
    }

    /// Writes the state into a stored record, behind its tag. A buffer that
    /// is too short for a record stays as it is.
    pub fn pack(&self, data: &mut Vec<u8>) -> (written: bool)
        ensures
            written == (old(data)@.len() >= STATE_LEN),
            final(data)@ == if written {
                PriceValidationState::encode(self@, old(data)@)
            } else {
                old(data)@
            },
    {
        if data.len() < STATE_LEN {
            return false;
        }
        self.product_price_feed_pubkey.write(data, 8);
        self.token_usd_price_feed_pubkey.write(data, 40);
        write_u64_le(data, 72, self.tolerance_basis_points);
        data.set(80, if self.is_price_validation_active { 1 } else { 0 });
        true
    }

    /// What was written is what is read.
    pub proof fn lemma_decode_encode(state: PriceValidationStateView, base: Seq<u8>)
        requires
            base.len() >= STATE_LEN,
            state.product_price_feed_pubkey.len() == 32,
            state.token_usd_price_feed_pubkey.len() == 32,
        ensures
            PriceValidationState::encode(state, base).len() == base.len(),
            PriceValidationState::decode(PriceValidationState::encode(state, base)) == state,
    {
        let stored = PriceValidationState::encode(state, base);
        lemma_u64_round_trip(state.tolerance_basis_points as int);
        assert(stored.subrange(8, 40) =~= state.product_price_feed_pubkey);
        assert(stored.subrange(40, 72) =~= state.token_usd_price_feed_pubkey);
        assert(stored.subrange(72, 80) =~= u64_le_bytes(state.tolerance_basis_points as int));
    }

    /// A stored record whose active byte is 0 or 1 is written back unchanged.
    pub proof fn lemma_encode_decode(data: Seq<u8>)
        requires
            data.len() >= STATE_LEN,
            data[80] <= 1,
        ensures
            PriceValidationState::encode(PriceValidationState::decode(data), data) == data,
    {
        lemma_u64_bytes_round_trip(data.subrange(72, 80));
        assert(PriceValidationState::encode(PriceValidationState::decode(data), data) =~= data);
    }
}

} // verus!
