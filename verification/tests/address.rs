use token_config::address::{Address, AddressError};

const VITALIK: [u8; 20] = [
    0xd8, 0xda, 0x6b, 0xf2, 0x69, 0x64, 0xaf, 0x9d, 0x7e, 0xed, 0x9e, 0x03, 0xe5, 0x34, 0x15, 0xd3,
    0x7a, 0xa9, 0x60, 0x45,
];

#[test]
fn parse_reads_lower_case_digits() {
    let a = Address::parse("0xd8da6bf26964af9d7eed9e03e53415d37aa96045").unwrap();
    assert_eq!(a.bytes(), VITALIK);
}

#[test]
fn parse_reads_mixed_case_digits() {
    let a = Address::parse("0xd8dA6BF26964aF9D7eEd9e03E53415D37aA96045").unwrap();
    assert_eq!(a.bytes(), VITALIK);
}

#[test]
fn parse_reads_upper_case_digits_and_prefix() {
    let a = Address::parse("0XD8DA6BF26964AF9D7EED9E03E53415D37AA96045").unwrap();
    assert_eq!(a.bytes(), VITALIK);
}

#[test]
fn parse_reads_digits_without_prefix() {
    let a = Address::parse("d8da6bf26964af9d7eed9e03e53415d37aa96045").unwrap();
    assert_eq!(a.bytes(), VITALIK);
}

#[test]
fn parse_refuses_odd_length() {
    assert_eq!(
        Address::parse("0xd8da6bf26964af9d7eed9e03e53415d37aa9604").unwrap_err(),
        AddressError::OddLength
    );
    assert_eq!(Address::parse("0").unwrap_err(), AddressError::OddLength);
}

#[test]
fn parse_refuses_odd_length_before_it_looks_at_the_digits() {
    assert_eq!(Address::parse("zzz").unwrap_err(), AddressError::OddLength);
}

#[test]
fn parse_refuses_wrong_length() {
    assert_eq!(Address::parse("").unwrap_err(), AddressError::InvalidStringLength);
    assert_eq!(Address::parse("0x").unwrap_err(), AddressError::InvalidStringLength);
    assert_eq!(Address::parse("0xd8da").unwrap_err(), AddressError::InvalidStringLength);
    assert_eq!(
        Address::parse("0xd8da6bf26964af9d7eed9e03e53415d37aa9604500").unwrap_err(),
        AddressError::InvalidStringLength
    );
}

#[test]
fn parse_refuses_wrong_length_before_it_looks_at_the_digits() {
    assert_eq!(Address::parse("not an address").unwrap_err(), AddressError::InvalidStringLength);
}

#[test]
fn parse_names_the_first_invalid_character() {
    assert_eq!(
        Address::parse("0xg8da6bf26964af9d7eed9e03e53415d37aa96045").unwrap_err(),
        AddressError::InvalidHexCharacter { c: 'g', index: 0 }
    );
    assert_eq!(
        Address::parse("0xd8da6bf26964af9d7eed9e03e53415d37aa9604z").unwrap_err(),
        AddressError::InvalidHexCharacter { c: 'z', index: 39 }
    );
    assert_eq!(
        Address::parse("d8da6bf2 964af9d7eed-e03e53415d37aa96045").unwrap_err(),
        AddressError::InvalidHexCharacter { c: ' ', index: 8 }
    );
}

#[test]
fn parse_counts_bytes_not_characters() {
    // thirty-eight digits and one character of two bytes: forty bytes
    assert_eq!(
        Address::parse("d8da6bf26964af9d7eed9e03e53415d37aa960\u{e9}").unwrap_err(),
        AddressError::InvalidHexCharacter { c: '\u{c3}', index: 38 }
    );
}

#[test]
fn parse_takes_a_second_prefix_for_digits() {
    assert_eq!(
        Address::parse("0x0xda6bf26964af9d7eed9e03e53415d37aa96045").unwrap_err(),
        AddressError::InvalidHexCharacter { c: 'x', index: 1 }
    );
}

#[test]
fn checksum_string_is_mixed_case() {
    let a = Address::new(VITALIK);
    assert_eq!(a.to_checksum_string(), "0xd8dA6BF26964aF9D7eEd9e03E53415D37aA96045");
}

#[test]
fn checksum_string_of_zero() {
    let a = Address::new([0u8; 20]);
    assert_eq!(a.to_checksum_string(), "0x0000000000000000000000000000000000000000");
}

#[test]
fn checksum_string_reads_back() {
    let a = Address::new(VITALIK);
    let b = Address::parse(&a.to_checksum_string()).unwrap();
    assert!(a == b);
    assert_eq!(b.bytes(), VITALIK);
}

#[test]
fn hex_string_is_lower_case() {
    let a = Address::new(VITALIK);
    assert_eq!(a.to_hex_string(), "0xd8da6bf26964af9d7eed9e03e53415d37aa96045");
}

#[test]
fn hex_string_keeps_leading_zeros_and_all_digits() {
    let mut bytes = [0u8; 20];
    bytes[1] = 0x0f;
    bytes[2] = 0xa0;
    bytes[19] = 0x9c;
    let a = Address::new(bytes);
    assert_eq!(a.to_hex_string(), "0x000fa0000000000000000000000000000000009c");
}

#[test]
fn hex_string_reads_back() {
    let a = Address::new(VITALIK);
    let b = Address::parse(&a.to_hex_string()).unwrap();
    assert!(a == b);
}

#[test]
fn addresses_compare_by_their_bytes() {
    let a = Address::new(VITALIK);
    let mut other = VITALIK;
    other[19] = 0x46;
    assert!(a == Address::new(VITALIK));
    assert!(a != Address::new(other));
    other[19] = 0x45;
    other[0] = 0;
    assert!(a != Address::new(other));
}

#[test]
fn new_keeps_the_bytes() {
    assert_eq!(Address::new(VITALIK).bytes(), VITALIK);
}
