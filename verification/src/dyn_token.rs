//! A token that is known only when the program runs, on a chain that is
//! known when it is compiled.

use vstd::prelude::*;
use std::hash::Hash;
use std::marker::PhantomData;
use crate::address::Address;
use crate::symbol::UpperCaseSymbol;
use crate::token::{Chain, Token};

verus! {

/// What a `DynToken` holds.
pub struct DynTokenView {
    pub symbol: Seq<char>,
    pub address: Seq<u8>,
    pub display: Seq<char>,
}

/// A token on the chain `C` with a symbol, an address and a display text
/// of its own.
pub struct DynToken<C> {
    symbol: UpperCaseSymbol<String>,
    address: Address,
    display_str: String,
    _chain: PhantomData<C>,
}

impl<C> View for DynToken<C> {
    type V = DynTokenView;

    closed spec fn view(&self) -> DynTokenView {
        DynTokenView {
            symbol: self.symbol@,
            address: self.address@,
            display: self.display_str@,
        }
    }
}

impl<C> DynToken<C> {
    /// The token with the given symbol, address and display text.
    pub fn new(symbol: UpperCaseSymbol<String>, address: Address, display_str: String) -> (t: Self)
        ensures
            t@ == (DynTokenView { symbol: symbol@, address: address@, display: display_str@ }),
    {
        Self { symbol, address, display_str, _chain: PhantomData }
    }

    /// Asks `token` for its symbol, its address and its display text, in
    /// this order, and makes with `new` the token that holds the three
    /// answers: each part of the result is something that `token` may
    /// answer when it is asked for that part.
    pub fn from_token<T>(token: T) -> (t: Self) where T: Token<Chain = C>
        ensures
            exists|s: UpperCaseSymbol<&str>|
                call_ensures(T::symbol, (&token,), s) && t@.symbol == s@,
            exists|a: Address| call_ensures(T::address, (&token,), a) && t@.address == a@,
            exists|d: String| call_ensures(T::display, (&token,), d) && t@.display == d@,
    {
        let symbol = token.symbol().owned();
        let address = token.address();
        let display_str = token.display();
        Self::new(symbol, address, display_str)
    }

    /// The text that shows the token: its display text.
    pub fn to_string(&self) -> (s: String)
        ensures
            s@ == self@.display,
    {
        self.display_str.clone()
    }
}

impl<C> Clone for DynToken<C> {
    fn clone(&self) -> (t: Self)
        ensures
            t@ == self@,
    {
        Self {
            symbol: self.symbol.as_str().owned(),
            address: self.address,
            display_str: self.display_str.clone(),
            _chain: PhantomData,
        }
    }
}

impl<C> PartialEq for DynToken<C> {
    /// Two tokens of a chain are the same where their addresses are.
    fn eq(&self, other: &Self) -> (r: bool) {
        self.address == other.address
    }
}

impl<C> Eq for DynToken<C> {

}

impl<C> vstd::std_specs::cmp::PartialEqSpecImpl for DynToken<C> {
    open spec fn obeys_eq_spec() -> bool {
        true
    }

    open spec fn eq_spec(&self, other: &Self) -> bool {
        self.view().address == other.view().address
    }
}

impl<C: 'static> Hash for DynToken<C> {
    /// Calls `Hash::hash` of the standard library on the address, on the
    /// display text and on `TypeId::of::<C>()`, so that tokens of different
    /// chains hash apart.
    #[verifier::external_body]
    fn hash<H: std::hash::Hasher>(&self, state: &mut H) {
        self.address.hash(state);
        self.display_str.hash(state);
        std::any::TypeId::of::<C>().hash(state);
    }
}

impl<C: Chain + 'static> Token for DynToken<C> {
    type Chain = C;

    fn address(&self) -> (a: Address)
        ensures
            a@ == self@.address,
    {
        self.address
    }

    fn symbol(&self) -> (s: UpperCaseSymbol<&str>)
        ensures
            s@ == self@.symbol,
    {
        self.symbol.as_str()
    }

    fn display(&self) -> (s: String)
        ensures
            s@ == self@.display,
    {
        self.display_str.clone()
    }
}

} // verus!
