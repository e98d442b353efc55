//! What a chain, a token and a token group offer.

use vstd::prelude::*;
use vstd::string::StringExecFns;
use std::hash::Hash;
use crate::address::Address;
use crate::symbol::UpperCaseSymbol;

verus! {

/// A chain, with the endpoints at which it is reached.
pub trait Chain: Send + Sync {
    const HTTP_RPC_URL: Option<&'static str>;

    const WS_RPC_URL: Option<&'static str>;
}

/// A token on a chain.
pub trait Token: Clone + Hash + Eq + Sized + Send + Sync {
    type Chain: Chain;

    /// The address for this token
    fn address(&self) -> Address;

    /// The canonical symbol for this token
    fn symbol(&self) -> UpperCaseSymbol<&str>;

    /// The text that shows this token.
    fn display(&self) -> String;
}

/// A group of tokens that are related by organization
///
/// Useful when tokens of different organizations have conflicting names.
pub trait TokenGroup: Token {
    const GROUP_NAME: &'static str;

    fn all() -> Vec<Self>;
}

/// The address belongs to no token of the type named here.
#[derive(Debug)]
pub struct InvalidAddress(pub String);

/// The text of an `InvalidAddress` that names the type `type_ident`.
pub open spec fn invalid_address_message(type_ident: Seq<char>) -> Seq<char> {
    "Not a valid address for this type. "@ + type_ident
}

impl InvalidAddress {
    /// The error as text.
    pub fn to_string(&self) -> (s: String)
        ensures
            s@ == invalid_address_message(self.0@),
    {
        String::from_str("Not a valid address for this type. ").concat(self.0.as_str())
    }
}

} // verus!
