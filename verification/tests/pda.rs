use oracle_hooks::address::Address;
use oracle_hooks::earthquake::instruction::Region;
use oracle_hooks::pda::{derive_address, store_meta_list, write_meta_list, ExtraAccountMeta, META_LEN};
use solana_program::pubkey::Pubkey;

fn address(first: u8) -> Address {
    let mut bytes = [0u8; 32];
    for (i, byte) in bytes.iter_mut().enumerate() {
        *byte = first.wrapping_add(i as u8);
    }
    Address { bytes }
}

fn expected_address(seed: &[u8], program_id: &Address) -> Address {
    let (found, _) = Pubkey::find_program_address(&[seed], &Pubkey::new_from_array(program_id.bytes));
    Address { bytes: found.to_bytes() }
}

#[test]
fn derive_address_finds_the_program_address() {
    let program_id = address(3);
    let found = derive_address(b"config", &program_id).unwrap();
    assert_eq!(found, expected_address(b"config", &program_id));
    assert_ne!(found, program_id);
    assert!(!Pubkey::new_from_array(found.bytes).is_on_curve());
}

#[test]
fn derive_address_depends_on_seed_and_program() {
    let program_id = address(3);
    let config = derive_address(b"config", &program_id).unwrap();
    assert_eq!(derive_address(b"config", &program_id), Some(config));
    assert_ne!(derive_address(b"region_feeds", &program_id), Some(config));
    assert_ne!(derive_address(b"config", &address(4)), Some(config));
}

#[test]
fn derive_address_refuses_a_seed_that_is_too_long() {
    assert_eq!(derive_address(&[1u8; 33], &address(3)), None);
    assert!(derive_address(&[1u8; 32], &address(3)).is_some());
    assert!(derive_address(&[], &address(3)).is_some());
}

#[test]
fn each_region_has_its_feed_address() {
    let program_id = address(9);
    let seeds: [(Region, &[u8]); 5] = [
        (Region::Northeast, b"northeast_feed"),
        (Region::Southeast, b"southeast_feed"),
        (Region::Midwest, b"midwest_feed"),
        (Region::Southwest, b"southwest_feed"),
        (Region::West, b"west_feed"),
    ];
    for (region, seed) in seeds {
        assert_eq!(
            region.to_switchboard_pubkey(&program_id),
            Some(expected_address(seed, &program_id))
        );
    }
}

#[test]
fn an_entry_of_the_list_takes_34_bytes() {
    assert_eq!(META_LEN, 34);
}

#[test]
fn write_meta_list_fills_the_whole_buffer() {
    let metas = vec![
        ExtraAccountMeta { pubkey: address(1), is_signer: false, is_writable: true },
        ExtraAccountMeta { pubkey: address(101), is_signer: true, is_writable: false },
    ];
    let mut data = vec![0xeeu8; 1 + 2 * 34 + 5];
    write_meta_list(&mut data, &metas);
    let mut expected = vec![2u8];
    expected.extend_from_slice(&address(1).bytes);
    expected.extend_from_slice(&[0, 1]);
    expected.extend_from_slice(&address(101).bytes);
    expected.extend_from_slice(&[1, 0]);
    expected.extend_from_slice(&[0u8; 5]);
    assert_eq!(data, expected);
}

#[test]
fn write_meta_list_writes_an_empty_list() {
    let mut data = vec![7u8; 3];
    write_meta_list(&mut data, &Vec::new());
    assert_eq!(data, vec![0u8; 3]);
}

#[test]
fn store_meta_list_needs_room_for_the_list() {
    let metas = vec![ExtraAccountMeta { pubkey: address(1), is_signer: false, is_writable: false }];
    let mut short = vec![7u8; 34];
    assert!(!store_meta_list(&mut short, &metas));
    assert_eq!(short, vec![7u8; 34]);
    let mut exact = vec![7u8; 35];
    assert!(store_meta_list(&mut exact, &metas));
    assert_eq!(exact[0], 1);
    assert_eq!(&exact[1..33], &address(1).bytes);
    assert_eq!(&exact[33..], &[0, 0]);
    let mut empty: Vec<u8> = Vec::new();
    assert!(!store_meta_list(&mut empty, &Vec::new()));
}

#[test]
fn store_meta_list_counts_in_one_byte() {
    let meta = ExtraAccountMeta { pubkey: address(1), is_signer: false, is_writable: false };
    let mut data = vec![7u8; 1 + 34 * 256];
    assert!(!store_meta_list(&mut data, &vec![meta; 256]));
    assert_eq!(data, vec![7u8; 1 + 34 * 256]);
    assert!(store_meta_list(&mut data, &vec![meta; 255]));
    assert_eq!(data[0], 255);
    assert_eq!(&data[1 + 34 * 254..1 + 34 * 254 + 32], &address(1).bytes);
    assert_eq!(&data[1 + 34 * 255..], &[0u8; 34]);
}
