use oracle_hooks::address::{Address, ADDRESS_LEN};

fn address(first: u8) -> Address {
    let mut bytes = [0u8; 32];
    for (i, byte) in bytes.iter_mut().enumerate() {
        *byte = first.wrapping_add(i as u8);
    }
    Address { bytes }
}

#[test]
fn an_address_has_thirty_two_bytes() {
    assert_eq!(ADDRESS_LEN, 32);
    assert_eq!(Address::default().bytes.len(), ADDRESS_LEN);
}

#[test]
fn addresses_are_compared_byte_for_byte() {
    assert!(address(1) == address(1));
    assert!(address(1) != address(2));
    let mut last = address(1);
    last.bytes[31] ^= 1;
    assert!(address(1) != last);
    let mut first = address(1);
    first.bytes[0] ^= 1;
    assert!(address(1) != first);
}

#[test]
fn the_default_address_is_unset() {
    assert!(Address::default().is_unset());
    assert_eq!(Address::default().bytes, [0u8; 32]);
    assert!(!address(1).is_unset());
    let mut almost = Address::default();
    almost.bytes[31] = 1;
    assert!(!almost.is_unset());
}

#[test]
fn read_takes_thirty_two_bytes_from_the_position() {
    let data: Vec<u8> = (0u8..50).collect();
    assert_eq!(Address::read(&data, 0), address(0));
    assert_eq!(Address::read(&data, 7), address(7));
    assert_eq!(Address::read(&data, 18), address(18));
}

#[test]
fn write_puts_thirty_two_bytes_at_the_position() {
    let mut data = vec![200u8; 40];
    address(1).write(&mut data, 4);
    let mut expected = vec![200u8; 40];
    for i in 0..32 {
        expected[4 + i] = 1 + i as u8;
    }
    assert_eq!(data, expected);
    assert_eq!(Address::read(&data, 4), address(1));
}
