use oracle_hooks::hook::decode_execute;

const EXECUTE_TAG: [u8; 8] = [105, 37, 101, 197, 75, 251, 102, 26];
const INITIALIZE_TAG: [u8; 8] = [43, 34, 13, 49, 167, 88, 235, 235];

fn execute(amount: u64) -> Vec<u8> {
    let mut data = EXECUTE_TAG.to_vec();
    data.extend_from_slice(&amount.to_le_bytes());
    data
}

#[test]
fn decode_execute_reads_the_amount() {
    assert_eq!(decode_execute(&execute(0)), Some(0));
    assert_eq!(decode_execute(&execute(1)), Some(1));
    assert_eq!(decode_execute(&execute(900_000_000_000)), Some(900_000_000_000));
    assert_eq!(decode_execute(&execute(u64::MAX)), Some(u64::MAX));
    assert_eq!(
        decode_execute(&[105, 37, 101, 197, 75, 251, 102, 26, 1, 2, 3, 4, 5, 6, 7, 8]),
        Some(0x0807_0605_0403_0201)
    );
}

#[test]
fn decode_execute_agrees_with_the_interface() {
    let packed = spl_transfer_hook_interface::instruction::TransferHookInstruction::Execute {
        amount: 123_456_789,
    }
    .pack();
    assert_eq!(packed, execute(123_456_789));
    assert_eq!(decode_execute(&packed), Some(123_456_789));
}

#[test]
fn decode_execute_ignores_what_follows_the_amount() {
    let mut data = execute(77);
    data.extend_from_slice(&[1, 2, 3]);
    assert_eq!(decode_execute(&data), Some(77));
}

#[test]
fn decode_execute_refuses_a_truncated_buffer() {
    let data = execute(77);
    for len in 0..data.len() {
        assert_eq!(decode_execute(&data[..len]), None);
    }
}

#[test]
fn decode_execute_refuses_another_tag() {
    let mut data = execute(77);
    data[7] ^= 1;
    assert_eq!(decode_execute(&data), None);
    assert_eq!(decode_execute(&[0u8; 16]), None);
}

#[test]
fn decode_execute_refuses_the_initialize_instruction() {
    let packed =
        spl_transfer_hook_interface::instruction::TransferHookInstruction::InitializeExtraAccountMetaList {
            extra_account_metas: vec![],
        }
        .pack();
    assert_eq!(&packed[..8], &INITIALIZE_TAG);
    assert_eq!(decode_execute(&packed), None);
}

#[test]
fn decode_execute_refuses_an_initialize_list_with_a_false_count() {
    let mut data = INITIALIZE_TAG.to_vec();
    data.extend_from_slice(&5u32.to_le_bytes());
    assert_eq!(decode_execute(&data), None);
    data.extend_from_slice(&[0u8; 35]);
    assert_eq!(decode_execute(&data), None);
    assert_eq!(decode_execute(&INITIALIZE_TAG), None);
}
