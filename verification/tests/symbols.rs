use token_config::address::AddressError;
use token_config::symbol::is_all_uppercase;
use token_config::text::upper_case_first;
use token_config::types::{deserialize_address, SchemaError, TokenConfig, UpperCaseTicker};
use token_config::{InvalidAddress, UpperCaseSymbol};

#[test]
fn upper_case_is_recognised() {
    assert!(is_all_uppercase("USDC"));
    assert!(is_all_uppercase("WETH"));
    assert!(is_all_uppercase(""));
    assert!(is_all_uppercase("\u{c9}TH"));
}

#[test]
fn lower_and_mixed_case_are_recognised() {
    assert!(!is_all_uppercase("usdc"));
    assert!(!is_all_uppercase("Usdc"));
    assert!(!is_all_uppercase("USDc"));
    assert!(!is_all_uppercase("uSDC"));
}

#[test]
fn digits_and_signs_are_not_upper_case() {
    assert!(!is_all_uppercase("1INCH"));
    assert!(!is_all_uppercase("USD-C"));
    assert!(!is_all_uppercase("USD C"));
}

#[test]
fn ticker_keeps_an_upper_case_symbol() {
    let t = UpperCaseTicker::deserialize("USDC".to_string()).unwrap();
    assert_eq!(t.0, "USDC");
}

#[test]
fn ticker_refuses_lower_case() {
    assert_eq!(
        UpperCaseTicker::deserialize("usdc".to_string()).unwrap_err(),
        SchemaError::ExpectedUppercase
    );
}

#[test]
fn ticker_refuses_mixed_case() {
    assert_eq!(
        UpperCaseTicker::deserialize("cbETH".to_string()).unwrap_err(),
        SchemaError::ExpectedUppercase
    );
}

#[test]
fn address_field_is_read() {
    let a = deserialize_address("0x833589fCD6eDb6E08f4c7C32D4f71b54bdA02913").unwrap();
    assert_eq!(a.bytes()[0], 0x83);
    assert_eq!(a.bytes()[19], 0x13);
}

#[test]
fn address_field_that_is_no_address_is_refused() {
    assert_eq!(
        deserialize_address("0x8335").unwrap_err(),
        SchemaError::InvalidAddress(AddressError::InvalidStringLength)
    );
    assert_eq!(
        deserialize_address("0x833").unwrap_err(),
        SchemaError::InvalidAddress(AddressError::OddLength)
    );
    assert_eq!(
        deserialize_address("0x833589fCD6eDb6E08f4c7C32D4f71b54bdA0291q").unwrap_err(),
        SchemaError::InvalidAddress(AddressError::InvalidHexCharacter { c: 'q', index: 39 })
    );
}

#[test]
fn entry_is_built_from_symbol_and_address() {
    let t = TokenConfig::new("USDC".to_string(), "0x833589fCD6eDb6E08f4c7C32D4f71b54bdA02913")
        .unwrap();
    assert_eq!(t.name.0, "USDC");
    assert_eq!(t.address.to_checksum_string(), "0x833589fCD6eDb6E08f4c7C32D4f71b54bdA02913");
}

#[test]
fn entry_with_lower_case_symbol_is_refused() {
    let r = TokenConfig::new("usdc".to_string(), "0x833589fCD6eDb6E08f4c7C32D4f71b54bdA02913");
    assert_eq!(r.unwrap_err(), SchemaError::ExpectedUppercase);
}

#[test]
fn entry_with_bad_address_is_refused() {
    let r = TokenConfig::new("USDC".to_string(), "0x8335");
    assert_eq!(r.unwrap_err(), SchemaError::InvalidAddress(AddressError::InvalidStringLength));
}

#[test]
fn entry_looks_at_the_symbol_first() {
    let r = TokenConfig::new("usdc".to_string(), "0x8335");
    assert_eq!(r.unwrap_err(), SchemaError::ExpectedUppercase);
}

#[test]
fn first_character_is_put_in_upper_case() {
    assert_eq!(upper_case_first("base"), "Base");
    assert_eq!(upper_case_first("optimism"), "Optimism");
    assert_eq!(upper_case_first("universalTokens"), "UniversalTokens");
}

#[test]
fn upper_case_first_keeps_the_rest() {
    assert_eq!(upper_case_first("bASE"), "BASE");
    assert_eq!(upper_case_first("Base"), "Base");
    assert_eq!(upper_case_first("x"), "X");
    assert_eq!(upper_case_first("1inch"), "1inch");
}

#[test]
fn upper_case_first_of_nothing_is_nothing() {
    assert_eq!(upper_case_first(""), "");
}

#[test]
fn upper_case_first_may_give_more_characters() {
    assert_eq!(upper_case_first("\u{df}eta"), "SSeta");
    assert_eq!(upper_case_first("\u{e9}th"), "\u{c9}th");
}

#[test]
fn symbol_goes_from_owned_to_borrowed_and_back() {
    let owned = UpperCaseSymbol::new_unchecked("USDC".to_string());
    let borrowed = owned.as_str();
    assert_eq!(*borrowed, "USDC");
    let again = borrowed.owned();
    assert_eq!(*again, "USDC".to_string());
}

#[test]
fn symbol_is_not_checked() {
    let s = UpperCaseSymbol::new_unchecked("usdc");
    assert_eq!(*s, "usdc");
}

#[test]
fn symbol_shows_as_its_text() {
    let owned = UpperCaseSymbol::new_unchecked("WETH".to_string());
    assert_eq!(owned.to_string(), "WETH");
    assert_eq!(owned.as_str().to_string(), "WETH");
    let r: &str = owned.as_ref();
    assert_eq!(r, "WETH");
    let b = owned.as_str();
    let r: &str = b.as_ref();
    assert_eq!(r, "WETH");
}

#[test]
fn symbol_wraps_any_value() {
    let s = UpperCaseSymbol::new_unchecked(7u8);
    assert_eq!(*s, 7);
}

#[test]
fn invalid_address_names_the_type() {
    let e = InvalidAddress("USDC".to_string());
    assert_eq!(e.to_string(), "Not a valid address for this type. USDC");
    assert_eq!(e.0, "USDC");
}

#[test]
fn first_character_is_replaced() {
    assert_eq!(token_config::text::replace_first("base", "B".to_string()), "Base");
    assert_eq!(token_config::text::replace_first("base", "".to_string()), "ase");
    assert_eq!(token_config::text::replace_first("\u{df}eta", "SS".to_string()), "SSeta");
    assert_eq!(token_config::text::replace_first("", "X".to_string()), "");
}
