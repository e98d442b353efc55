//! Changes of case on characters and texts.

use vstd::prelude::*;
use vstd::string::StringExecFns;

verus! {

/// The upper-case form of `c`, which may be more than one character.
pub uninterp spec fn to_uppercase(c: char) -> Seq<char>;

/// Calls `char::to_uppercase` of the standard library and collects the
/// characters that it yields: the Unicode upper-case mapping of `c`, which
/// has only a name here.
#[verifier::external_body]
pub(crate) fn char_to_uppercase(c: char) -> (s: String)
    ensures
        s@ == to_uppercase(c),
{
    c.to_uppercase().collect()
}

/// `c` with an ASCII capital letter turned into its small letter.
pub open spec fn ascii_lowercase_char(c: char) -> char {
    if 'A' <= c <= 'Z' {
        ((c as u8) + 32) as char
    } else {
        c
    }
}

/// `s` with each ASCII capital letter turned into its small letter.
pub open spec fn ascii_lowercase(s: Seq<char>) -> Seq<char> {
    Seq::new(s.len(), |i: int| ascii_lowercase_char(s[i]))
}

/// `str::to_ascii_lowercase` of the standard library maps `A` to `Z` to `a`
/// to `z` and leaves every other character as it is.
pub assume_specification[ str::to_ascii_lowercase ](s: &str) -> (r: String)
    ensures
        r@ == ascii_lowercase(s@),
;

/// `s` with its first character in upper case.
pub open spec fn upper_case_first_spec(s: Seq<char>) -> Seq<char> {
    if s.len() == 0 {
        s
    } else {
        to_uppercase(s[0]) + s.skip(1)
    }
}

/// Puts `head` in the place of the first character of `s`, if `s` has one.
pub fn replace_first(s: &str, head: String) -> (r: String)
    ensures
        r@ == if s@.len() == 0 {
            s@
        } else {
            head@ + s@.skip(1)
        },
{
    let n = s.unicode_len();
    if n == 0 {
        String::new()
    } else {
        let rest = s.substring_char(1, n);
        assert(s@.subrange(1, n as int) == s@.skip(1));
        head.concat(rest)
    }
}

/// Puts the first character of `s` in upper case and keeps the rest.
pub fn upper_case_first(s: &str) -> (r: String)
    ensures
        r@ == upper_case_first_spec(s@),
{
    if s.unicode_len() == 0 {
        String::new()
    } else {
        replace_first(s, char_to_uppercase(s.get_char(0)))
    }
}

} // verus!
