//! Token symbols, which are written in upper case throughout.

use vstd::prelude::*;

verus! {

/// Whether `c` has the Unicode property `Uppercase`.
pub uninterp spec fn is_uppercase(c: char) -> bool;

/// `char::is_uppercase` of the standard library tells whether a character
/// has the Unicode property `Uppercase`; the property has only a name here.
pub assume_specification[ char::is_uppercase ](c: char) -> (b: bool)
    ensures
        b == is_uppercase(c),
;

/// Whether every character of `s` is upper case. The empty text is.
pub open spec fn all_uppercase(s: Seq<char>) -> bool {
    forall|i: int| 0 <= i < s.len() ==> is_uppercase(#[trigger] s[i])
}

/// Tells whether every character of `s` is upper case.
pub fn is_all_uppercase(s: &str) -> (b: bool)
    ensures
        b == all_uppercase(s@),
{
    for c in iter: s.chars()
        invariant
            iter.seq() == s@,
            forall|i: int| 0 <= i < iter.index() ==> is_uppercase(#[trigger] s@[i]),
    {
        if !c.is_uppercase() {
            assert(!is_uppercase(s@[iter.index() as int]));
            return false;
        }
    }
    true
}

/// A token symbol. Whoever makes one vouches that it is in upper case:
/// `new_unchecked` does not look at it.
#[derive(Debug, Clone)]
pub struct UpperCaseSymbol<T>(T);

impl<T> UpperCaseSymbol<T> {
    /// The value that the symbol wraps.
    pub closed spec fn inner(self) -> T {
        self.0
    }

    /// Wraps `symbol` as it is.
    pub fn new_unchecked(symbol: T) -> (s: Self)
        ensures
            s.inner() == symbol,
    {
        UpperCaseSymbol(symbol)
    }
}

impl<T: View> View for UpperCaseSymbol<T> {
    type V = T::V;

    open spec fn view(&self) -> T::V {
        self.inner().view()
    }
}

impl UpperCaseSymbol<String> {
    /// The same symbol, borrowed.
    pub fn as_str(&self) -> (s: UpperCaseSymbol<&str>)
        ensures
            s@ == self@,
    {
        UpperCaseSymbol(self.0.as_str())
    }
}

impl UpperCaseSymbol<&str> {
    /// The same symbol, owned.
    pub fn owned(&self) -> (s: UpperCaseSymbol<String>)
        ensures
            s@ == self@,
    {
        UpperCaseSymbol(self.0.to_owned())
    }
}

impl<T> std::ops::Deref for UpperCaseSymbol<T> {
    type Target = T;

    fn deref(&self) -> (r: &T)
        ensures
            *r == self.inner(),
    {
        &self.0
    }
}

impl AsRef<str> for UpperCaseSymbol<String> {
    fn as_ref(&self) -> (r: &str)
        ensures
            r@ == self@,
    {
        self.0.as_str()
    }
}

impl<'a> AsRef<str> for UpperCaseSymbol<&'a str> {
    fn as_ref(&self) -> (r: &str)
        ensures
            r@ == self@,
    {
        self.0
    }
}

impl UpperCaseSymbol<String> {
    /// The symbol as text, as it is shown.
    pub fn to_string(&self) -> (s: String)
        ensures
            s@ == self@,
    {
        self.0.clone()
    }
}

impl UpperCaseSymbol<&str> {
    /// The symbol as text, as it is shown.
    pub fn to_string(&self) -> (s: String)
        ensures
            s@ == self@,
    {
        self.0.to_owned()
    }
}

} // verus!
