//! Account addresses: twenty bytes, read from and written as hexadecimal text.

use vstd::prelude::*;
use vstd::utf8::{encode_utf8, is_ascii_chars, is_ascii_chars_encode_utf8};

verus! {

/// Why a text is not an address.
#[derive(Clone, Copy, Debug, PartialEq, Eq, Structural)]
pub enum AddressError {
    /// A byte that is no hexadecimal digit, with its position after the prefix.
    InvalidHexCharacter { c: char, index: usize },
    /// The text has an odd number of bytes.
    OddLength,
    /// The digits do not make up twenty bytes.
    InvalidStringLength,
}

/// What a text stands for: the bytes of an address, or the reason why none.
pub type Decoded = Result<Seq<u8>, AddressError>;

/// Whether `b` is one of `0-9`, `A-F`, `a-f`.
pub open spec fn is_hex_digit(b: u8) -> bool {
    (0x30 <= b <= 0x39) || (0x41 <= b <= 0x46) || (0x61 <= b <= 0x66)
}

/// The value of the hexadecimal digit `b`.
pub open spec fn hex_value(b: u8) -> int {
    if b <= 0x39 {
        b - 0x30
    } else if b <= 0x46 {
        b - 0x41 + 10
    } else {
        b - 0x61 + 10
    }
}

/// `text` without a leading `0x` or `0X`.
pub open spec fn strip_hex_prefix(text: Seq<u8>) -> Seq<u8> {
    if text.len() >= 2 && text[0] == 0x30 && (text[1] == 0x78 || text[1] == 0x58) {
        text.skip(2)
    } else {
        text
    }
}

/// The position of the first byte of `digits` that is no hexadecimal digit,
/// or the length of `digits` if there is none.
pub open spec fn first_invalid(digits: Seq<u8>) -> int
    decreases digits.len(),
{
    if digits.len() == 0 || !is_hex_digit(digits[0]) {
        0
    } else {
        1 + first_invalid(digits.skip(1))
    }
}

/// The bytes that the digit pairs of `digits` stand for.
pub open spec fn decoded(digits: Seq<u8>) -> Seq<u8> {
    Seq::new(
        digits.len() / 2,
        |i: int| (hex_value(digits[2 * i]) * 16 + hex_value(digits[2 * i + 1])) as u8,
    )
}

/// What the UTF-8 bytes `text` mean as an address: an optional `0x` or `0X`,
/// then exactly forty hexadecimal digits in either case.
pub open spec fn address_of_text(text: Seq<u8>) -> Decoded {
    let digits = strip_hex_prefix(text);
    let bad = first_invalid(digits);
    if text.len() % 2 != 0 {
        Err(AddressError::OddLength)
    } else if digits.len() != 40 {
        Err(AddressError::InvalidStringLength)
    } else if bad < 40 {
        Err(AddressError::InvalidHexCharacter { c: digits[bad] as char, index: bad as usize })
    } else {
        Ok(decoded(digits))
    }
}

/// What `address_of_text` makes of the characters `text`, taken as UTF-8.
pub open spec fn address_of_str(text: Seq<char>) -> Decoded {
    address_of_text(encode_utf8(text))
}

/// The lower-case hexadecimal digit for `nibble`, which is below sixteen.
pub open spec fn lower_hex_digit(nibble: int) -> char {
    if nibble < 10 {
        (0x30 + nibble) as char
    } else {
        (0x61 + nibble - 10) as char
    }
}

/// `0x` and then two lower-case hexadecimal digits for each byte of `bytes`.
pub open spec fn lower_hex_text(bytes: Seq<u8>) -> Seq<char> {
    seq!['0', 'x'] + Seq::new(
        2 * bytes.len(),
        |i: int|
            if i % 2 == 0 {
                lower_hex_digit(bytes[i / 2] as int / 16)
            } else {
                lower_hex_digit(bytes[i / 2] as int % 16)
            },
    )
}

/// A lower-case hexadecimal digit is a hexadecimal digit with the value it
/// was written for.
pub proof fn lemma_lower_hex_digit(nibble: int)
    requires
        0 <= nibble < 16,
    ensures
        lower_hex_digit(nibble) as int <= 0x7f,
        is_hex_digit(lower_hex_digit(nibble) as u8),
        hex_value(lower_hex_digit(nibble) as u8) == nibble,
{
}

/// Where every byte of `digits` is a hexadecimal digit, none is invalid.
pub proof fn lemma_first_invalid_none(digits: Seq<u8>)
    requires
        forall|i: int| 0 <= i < digits.len() ==> is_hex_digit(#[trigger] digits[i]),
    ensures
        first_invalid(digits) == digits.len(),
    decreases digits.len(),
{
    if digits.len() > 0 {
        assert(is_hex_digit(digits[0]));
        lemma_first_invalid_none(digits.skip(1));
    }
}

/// Twenty bytes written as `0x` and lower-case hexadecimal read back as the
/// same bytes.
pub proof fn lemma_lower_hex_reads_back(bytes: Seq<u8>)
    requires
        bytes.len() == 20,
    ensures
        address_of_str(lower_hex_text(bytes)) == Decoded::Ok(bytes),
{
    let chars = lower_hex_text(bytes);
    assert(chars.len() == 42);
    assert forall|i: int| 0 <= i < 40 implies {
        &&& (#[trigger] chars[2 + i]) as int <= 0x7f
        &&& is_hex_digit(chars[2 + i] as u8)
        &&& hex_value(chars[2 + i] as u8) == if i % 2 == 0 {
            bytes[i / 2] as int / 16
        } else {
            bytes[i / 2] as int % 16
        }
    } by {
        lemma_lower_hex_digit(bytes[i / 2] as int / 16);
        lemma_lower_hex_digit(bytes[i / 2] as int % 16);
    }
    assert(is_ascii_chars(chars)) by {
        assert forall|i: int| 0 <= i < chars.len() implies '\0' <= #[trigger] chars[i]
            <= '\u{7f}' by {
            if i >= 2 {
                assert(chars[2 + (i - 2)] as int <= 0x7f);
            }
        }
    }
    is_ascii_chars_encode_utf8(chars);
    let text = encode_utf8(chars);
    assert(text.len() == 42);
    assert(text[0] == 0x30 && text[1] == 0x78);
    let digits = strip_hex_prefix(text);
    assert(digits == text.skip(2));
    assert forall|i: int| 0 <= i < 40 implies {
        &&& is_hex_digit(#[trigger] digits[i])
        &&& hex_value(digits[i]) == if i % 2 == 0 {
            bytes[i / 2] as int / 16
        } else {
            bytes[i / 2] as int % 16
        }
    } by {
        assert(digits[i] == text[2 + i]);
        assert(text[2 + i] == chars[2 + i] as u8);
    }
    lemma_first_invalid_none(digits);
    assert(decoded(digits) =~= bytes) by {
        assert forall|i: int| 0 <= i < 20 implies #[trigger] decoded(digits)[i] == bytes[i] by {
            assert(is_hex_digit(digits[2 * i]));
            assert(is_hex_digit(digits[2 * i + 1]));
        }
    }
}

/// The mixed-case text that displays the twenty bytes `bytes`.
pub uninterp spec fn checksum_text(bytes: Seq<u8>) -> Seq<char>;

/// An account address.
#[derive(Clone, Copy, Debug, Hash)]
pub struct Address {
    bytes: [u8; 20],
}

impl View for Address {
    type V = Seq<u8>;

    closed spec fn view(&self) -> Seq<u8> {
        self.bytes@
    }
}

/// Calls `<alloy::primitives::Address as FromStr>::from_str`, which decodes
/// with `const_hex::decode_to_array`: the result is `address_of_text` of the
/// text's bytes, one error variant for each of the decoder's.
#[verifier::external_body]
fn address_from_str(s: &str) -> (r: Result<[u8; 20], AddressError>)
    ensures
        match r {
            Ok(bytes) => address_of_str(s@) == Decoded::Ok(bytes@),
            Err(e) => address_of_str(s@) == Decoded::Err(e),
        },
{
    match s.parse::<alloy::primitives::Address>() {
        Ok(address) => Ok(address.into()),
        Err(alloy::primitives::hex::FromHexError::InvalidHexCharacter { c, index }) => Err(
            AddressError::InvalidHexCharacter { c, index },
        ),
        Err(alloy::primitives::hex::FromHexError::OddLength) => Err(AddressError::OddLength),
        Err(alloy::primitives::hex::FromHexError::InvalidStringLength) => Err(
            AddressError::InvalidStringLength,
        ),
    }
}

/// Calls `Display::fmt` of `alloy::primitives::Address` through `to_string`:
/// the text is `0x` and the forty hexadecimal digits of the bytes, each letter
/// in the case that the address's checksum gives it. The digits are stated
/// by the second clause; the case of the letters has only a name.
#[verifier::external_body]
fn address_to_string(bytes: &[u8; 20]) -> (s: String)
    ensures
        s@ == checksum_text(bytes@),
        address_of_str(s@) == Decoded::Ok(bytes@),
{
    alloy::primitives::Address::from(*bytes).to_string()
}

/// Calls `Debug::fmt` of `alloy::primitives::Address`, which writes `0x` and
/// the bytes in lower-case hexadecimal.
#[verifier::external_body]
fn address_to_debug_string(bytes: &[u8; 20]) -> (s: String)
    ensures
        s@ == lower_hex_text(bytes@),
{
    format!("{:?}", alloy::primitives::Address::from(*bytes))
}

impl PartialEq for Address {
    fn eq(&self, other: &Self) -> (r: bool) {
        let mut i: usize = 0;
        while i < 20
            invariant
                i <= 20,
                forall|j: int| 0 <= j < i ==> self.bytes@[j] == other.bytes@[j],
            decreases 20 - i,
        {
            if self.bytes[i] != other.bytes[i] {
                return false;
            }
            i += 1;
        }
        assert(self.bytes@ =~= other.bytes@);
        true
    }
}

impl Eq for Address {

}

impl vstd::std_specs::cmp::PartialEqSpecImpl for Address {
    open spec fn obeys_eq_spec() -> bool {
        true
    }

    open spec fn eq_spec(&self, other: &Self) -> bool {
        self.view() == other.view()
    }
}

impl Address {
    /// Every address has twenty bytes.
    pub proof fn lemma_len(self)
        ensures
            self@.len() == 20,
    {
    }

    /// The text that displays this address.
    pub fn to_checksum_string(&self) -> (s: String)
        ensures
            s@ == checksum_text(self@),
            address_of_str(s@) == Decoded::Ok(self@),
    {
        address_to_string(&self.bytes)
    }

    /// `0x` and the forty lower-case hexadecimal digits of this address.
    pub fn to_hex_string(&self) -> (s: String)
        ensures
            s@ == lower_hex_text(self@),
    {
        address_to_debug_string(&self.bytes)
    }

    /// The address with the given bytes.
    pub fn new(bytes: [u8; 20]) -> (a: Address)
        ensures
            a@ == bytes@,
    {
        Address { bytes }
    }

    /// The bytes of the address.
    pub fn bytes(&self) -> (bytes: [u8; 20])
        ensures
            bytes@ == self@,
    {
        self.bytes
    }

    /// Reads an address from text.
    pub fn parse(s: &str) -> (r: Result<Address, AddressError>)
        ensures
            match r {
                Ok(a) => address_of_str(s@) == Decoded::Ok(a@),
                Err(e) => address_of_str(s@) == Decoded::Err(e),
            },
    {
        match address_from_str(s) {
            Ok(bytes) => Ok(Address { bytes }),
            Err(e) => Err(e),
        }
    }
}

} // verus!
