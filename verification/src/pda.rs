//! Addresses that a program derives from a seed, and the list of extra
//! accounts that a hook announces to the token program.

use crate::address::Address;
use crate::bytes::overlay;
use solana_program::pubkey::Pubkey;
use vstd::prelude::*;

verus! {

/// What `Pubkey::try_find_program_address` gives for one seed and a program
/// address: the derived address and its bump seed, or nothing where no bump
/// seed yields an address off the curve.
pub uninterp spec fn program_address(seed: Seq<u8>, program_id: Seq<u8>) -> Option<(Seq<u8>, u8)>;

/// The bytes of a derived address and its bump seed, where there is one.
pub open spec fn derived_view(found: Option<(Address, u8)>) -> Option<(Seq<u8>, u8)> {
    match found {
        Some((address, bump)) => Some((address@, bump)),
        None => None,
    }
}

/// Calls `Pubkey::try_find_program_address` with the single seed `seed`.
///
/// The contract claims that the derived address and bump seed depend on the
/// seed and the program address alone: the outside code hashes them together
/// with each candidate bump seed in a fixed order.
#[verifier::external_body]
fn try_find_program_address(seed: &[u8], program_id: &Address) -> (found: Option<(Address, u8)>)
    ensures
        derived_view(found) == program_address(seed@, program_id@),
{
    match Pubkey::try_find_program_address(&[seed], &Pubkey::new_from_array(program_id.bytes)) {
        Some((address, bump)) => Some((Address { bytes: address.to_bytes() }, bump)),
        None => None,
    }
}

/// The address that `program_id` derives from `seed`, as a specification.
pub open spec fn derived_address(seed: Seq<u8>, program_id: Address) -> Option<Seq<u8>> {
    match program_address(seed, program_id@) {
        Some((address, _)) => Some(address),
        None => None,
    }
}

/// Derives the address that belongs to `seed` under `program_id`.
pub fn derive_address(seed: &[u8], program_id: &Address) -> (address: Option<Address>)
    ensures
        match address {
            Some(found) => derived_address(seed@, *program_id) == Some(found@),
            None => derived_address(seed@, *program_id) is None,
        },
{
    match try_find_program_address(seed, program_id) {
        Some((address, _)) => Some(address),
        None => None,
    }
}

/// One extra account that the token program must pass to the hook.
#[derive(Clone, Copy, Debug, PartialEq, Eq)]
pub struct ExtraAccountMeta {
    pub pubkey: Address,
    pub is_signer: bool,
    pub is_writable: bool,
}

/// What an entry of the list stands for.
pub struct ExtraAccountMetaView {
    pub pubkey: Seq<u8>,
    pub is_signer: bool,
    pub is_writable: bool,
}

impl View for ExtraAccountMeta {
    type V = ExtraAccountMetaView;

    open spec fn view(&self) -> ExtraAccountMetaView {
        ExtraAccountMetaView {
            pubkey: self.pubkey@,
            is_signer: self.is_signer,
            is_writable: self.is_writable,
        }
    }
}

/// The views of the entries of a list, in the order of the list.
pub open spec fn meta_views(metas: Seq<ExtraAccountMeta>) -> Seq<ExtraAccountMetaView> {
    metas.map_values(|meta: ExtraAccountMeta| meta@)
}

/// Bytes that one entry of the list takes: the address and two flags.
pub const META_LEN: usize = 34;

/// The byte that stands for a flag.
pub open spec fn flag_byte(flag: bool) -> u8 {
    if flag {
        1
    } else {
        0
    }
}

/// Byte `at` of a list buffer in which the count `count` and the first
/// `written` entries of `metas` stand, and zero everywhere else.
pub open spec fn meta_list_byte(
    metas: Seq<ExtraAccountMetaView>,
    count: u8,
    written: int,
    at: int,
) -> u8 {
    let entry = (at - 1) / 34;
    let offset = (at - 1) % 34;
    if at == 0 {
        count
    } else if entry < written {
        if offset < 32 {
            metas[entry].pubkey[offset]
        } else if offset == 32 {
            flag_byte(metas[entry].is_signer)
        } else {
            flag_byte(metas[entry].is_writable)
        }
    } else {
        0
    }
}

/// A buffer of `len` bytes that holds the list `metas`: the number of entries
/// in byte 0, then each entry in 34 bytes, then zeros.
pub open spec fn meta_list_bytes(metas: Seq<ExtraAccountMetaView>, len: nat) -> Seq<u8> {
    Seq::new(len, |at: int| meta_list_byte(metas, metas.len() as u8, metas.len() as int, at))
}

/// Whether a buffer of `len` bytes has room for a list of `count` entries
/// whose count fits one byte.
pub open spec fn meta_list_fits(count: nat, len: nat) -> bool {
    count <= 255 && 1 + 34 * count <= len
}

/// Fills `data` with the list `metas`, over whatever it held.
pub fn write_meta_list(data: &mut Vec<u8>, metas: &Vec<ExtraAccountMeta>)
    requires
        meta_list_fits(metas@.len(), old(data)@.len()),
    ensures
        final(data)@ == meta_list_bytes(meta_views(metas@), old(data)@.len()),
{
    let len = data.len();
    let count: u8 = metas.len() as u8;
    let mut i: usize = 0;
    while i < len
        invariant
            i <= len,
            data@.len() == len,
            forall|k: int| 0 <= k < i ==> data@[k] == 0,
        decreases len - i,
    {
        data.set(i, 0);
        i += 1;
    }
    data.set(0, count);
    let mut written: usize = 0;
    while written < metas.len()
        invariant
            written <= metas@.len() <= 255,
            1 + 34 * metas@.len() <= len,
            data@.len() == len,
            count == metas@.len(),
            forall|k: int|
                0 <= k < len ==> data@[k] == meta_list_byte(
                    meta_views(metas@),
                    count,
                    written as int,
                    k,
                ),
        decreases metas@.len() - written,
    {
        let meta = metas[written];
        let at: usize = 1 + written * 34;
        let ghost before = data@;
        meta.pubkey.write(data, at);
        data.set(at + 32, if meta.is_signer { 1 } else { 0 });
        data.set(at + 33, if meta.is_writable { 1 } else { 0 });
        proof {
            assert forall|k: int| 0 <= k < len implies data@[k] == meta_list_byte(
                meta_views(metas@),
                count,
                written + 1,
                k,
            ) by {
                let entry = (k - 1) / 34;
                let offset = (k - 1) % 34;
                if at <= k < at + 34 {
                    assert(k - 1 == 34 * written + (k - at));
                    assert(entry == written && offset == k - at);
                    if k < at + 32 {
                        assert(data@[k] == overlay(before, at as int, meta.pubkey@)[k]);
                    }
                } else {
                    assert(data@[k] == before[k]);
                    if k != 0 {
                        assert(entry != written);
                    }
                }
            }
        }
        written += 1;
    }
    assert(data@ =~= meta_list_bytes(meta_views(metas@), len as nat));
}

/// Fills `data` with the list `metas` if it has room for it, and says
/// whether it did. A buffer without room stays as it is.
pub fn store_meta_list(data: &mut Vec<u8>, metas: &Vec<ExtraAccountMeta>) -> (written: bool)
    ensures
        written == meta_list_fits(metas@.len(), old(data)@.len()),
        final(data)@ == if written {
            meta_list_bytes(meta_views(metas@), old(data)@.len())
        } else {
            old(data)@
        },
{
    if metas.len() > 255 || data.len() < 1 + 34 * metas.len() {
        return false;
    }
    write_meta_list(data, metas);
    true
}

} // verus!
