//! The configuration: chains, their tokens and their token groups.

use vstd::prelude::*;
use crate::address::{address_of_str, Address, AddressError, Decoded};
use crate::symbol::{all_uppercase, is_all_uppercase};

verus! {

/// Why a configuration entry is refused.
#[derive(Clone, Copy, Debug, PartialEq, Eq, Structural)]
pub enum SchemaError {
    /// A token's name has a character that is not upper case.
    ExpectedUppercase,
    /// A token's address is no address.
    InvalidAddress(AddressError),
}

/// All chains of a configuration, each under its name, in the order in
/// which their modules are made.
#[derive(Debug)]
pub struct TruthConfig {
    pub chains: Vec<(String, ChainConifg)>,
}

/// One chain: its endpoints, its standalone tokens and its token groups.
#[derive(Debug)]
pub struct ChainConifg {
    pub http_rpc: Option<String>,
    pub ws_rpc: Option<String>,
    pub tokens: Vec<TokenConfig>,
    pub token_groups: Vec<TokenGroup>,
}

/// The tokens of one organization.
#[derive(Debug)]
pub struct TokenGroup {
    pub org: String,
    pub tokens: Vec<TokenConfig>,
}

/// One token: its symbol and its address.
#[derive(Debug)]
pub struct TokenConfig {
    pub name: UpperCaseTicker,
    pub address: Address,
}

/// A token's symbol as the configuration spells it.
#[derive(Debug)]
pub struct UpperCaseTicker(pub String);

impl UpperCaseTicker {
    /// Whether the symbol is in upper case throughout.
    pub open spec fn is_valid(&self) -> bool {
        all_uppercase(self.0@)
    }

    /// Accepts `s` as a symbol if all its characters are upper case, and
    /// keeps it letter for letter; refuses it otherwise.
    pub fn deserialize(s: String) -> (r: Result<UpperCaseTicker, SchemaError>)
        ensures
            match r {
                Ok(ticker) => all_uppercase(s@) && ticker.0 == s,
                Err(e) => !all_uppercase(s@) && e == SchemaError::ExpectedUppercase,
            },
    {
        if is_all_uppercase(s.as_str()) {
            Ok(UpperCaseTicker(s))
        } else {
            Err(SchemaError::ExpectedUppercase)
        }
    }
}

/// Reads a token's address from the text `s`: an optional `0x`, then forty
/// hexadecimal digits.
pub fn deserialize_address(s: &str) -> (r: Result<Address, SchemaError>)
    ensures
        match r {
            Ok(a) => address_of_str(s@) == Decoded::Ok(a@),
            Err(e) => e matches SchemaError::InvalidAddress(cause) && address_of_str(s@)
                == Decoded::Err(cause),
        },
{
    match Address::parse(s) {
        Ok(a) => Ok(a),
        Err(cause) => Err(SchemaError::InvalidAddress(cause)),
    }
}

impl TokenConfig {
    /// Whether the token's symbol is in upper case throughout.
    pub open spec fn is_valid(&self) -> bool {
        self.name.is_valid()
    }

    /// Builds the entry for the symbol `name` and the address written as
    /// `address`. The symbol is looked at first.
    pub fn new(name: String, address: &str) -> (r: Result<TokenConfig, SchemaError>)
        ensures
            match r {
                Ok(t) => {
                    &&& all_uppercase(name@)
                    &&& t.name.0 == name
                    &&& address_of_str(address@) == Decoded::Ok(t.address@)
                },
                Err(SchemaError::ExpectedUppercase) => !all_uppercase(name@),
                Err(SchemaError::InvalidAddress(cause)) => {
                    &&& all_uppercase(name@)
                    &&& address_of_str(address@) == Decoded::Err(cause)
                },
            },
    {
        let name = UpperCaseTicker::deserialize(name)?;
        let address = deserialize_address(address)?;
        Ok(TokenConfig { name, address })
    }
}

} // verus!
