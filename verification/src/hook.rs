//! The instruction buffer of the raw path.
//!
//! A buffer starts with an eight-byte tag. One tag means "execute a transfer
//! of this amount" and is followed by the amount as a little-endian `u64`;
//! nothing else is an instruction of a hook.

use crate::bytes::le_u64;
use spl_transfer_hook_interface::instruction::TransferHookInstruction;
use vstd::prelude::*;

verus! {

/// The tag of the execute instruction.
pub open spec fn execute_tag() -> Seq<u8> {
    seq![105u8, 37u8, 101u8, 197u8, 75u8, 251u8, 102u8, 26u8]
}

/// The tag of the instruction that initializes a list of extra accounts.
pub open spec fn initialize_tag() -> Seq<u8> {
    seq![43u8, 34u8, 13u8, 49u8, 167u8, 88u8, 235u8, 235u8]
}

/// Whether `data` starts with `tag`.
pub open spec fn has_tag(data: Seq<u8>, tag: Seq<u8>) -> bool {
    data.len() >= 8 && data.subrange(0, 8) == tag
}

/// The amount of the execute instruction that `data` holds, if it holds one:
/// the execute tag, then at least eight more bytes, of which the first eight
/// spell the amount.
pub open spec fn execute_amount(data: Seq<u8>) -> Option<u64> {
    if has_tag(data, execute_tag()) && data.len() >= 16 {
        Some(le_u64(data.subrange(8, 16)) as u64)
    } else {
        None
    }
}

/// Calls `TransferHookInstruction::unpack` and keeps the amount of an execute
/// instruction.
///
/// The contract claims what the outside source shows for a buffer that does
/// not start with the initialize tag: it is an execute instruction exactly
/// when it starts with the execute tag and goes on for eight bytes or more,
/// and the amount is those eight bytes read least significant byte first. A
/// buffer with the initialize tag is left out because the outside code slices
/// the list behind it by a count that it does not check.
#[verifier::external_body]
fn unpack_execute(data: &[u8]) -> (amount: Option<u64>)
    requires
        !has_tag(data@, initialize_tag()),
    ensures
        amount == execute_amount(data@),
{
    match TransferHookInstruction::unpack(data) {
        Ok(TransferHookInstruction::Execute { amount }) => Some(amount),
        Ok(TransferHookInstruction::InitializeExtraAccountMetaList { .. }) => None,
        Err(_) => None,
    }
}

/// Whether `data` starts with the initialize tag.
fn starts_with_initialize_tag(data: &[u8]) -> (tagged: bool)
    ensures
        tagged == has_tag(data@, initialize_tag()),
{
    if data.len() < 8 {
        return false;
    }
    let tagged = data[0] == 43 && data[1] == 34 && data[2] == 13 && data[3] == 49 && data[4] == 167
        && data[5] == 88 && data[6] == 235 && data[7] == 235;
    proof {
        let head = data@.subrange(0, 8);
        if tagged {
            assert(head =~= initialize_tag());
        } else {
            assert(head[0] == data@[0] && head[1] == data@[1] && head[2] == data@[2] && head[3]
                == data@[3] && head[4] == data@[4] && head[5] == data@[5] && head[6] == data@[6]
                && head[7] == data@[7]);
        }
    }
    tagged
}

/// Decodes an instruction buffer: the amount of an execute instruction, or
/// nothing for every other buffer.
pub fn decode_execute(data: &[u8]) -> (amount: Option<u64>)
    ensures
        amount == execute_amount(data@),
{
    if starts_with_initialize_tag(data) {
        assert(data@.subrange(0, 8)[0] == 43);
        return None;
    }
    unpack_execute(data)
}

} // verus!
