//! Texts behind strings.

use vstd::prelude::*;

verus! {

/// The texts of a sequence of strings.
pub open spec fn texts(strings: Seq<String>) -> Seq<Seq<char>> {
    strings.map_values(|s: String| s@)
}

/// The text of a string that may be missing.
pub open spec fn text_of(string: Option<String>) -> Option<Seq<char>> {
    match string {
        None => None,
        Some(s) => Some(s@),
    }
}

/// The text is there and is `expected`.
pub fn text_is(string: &Option<String>, expected: &str) -> (is: bool)
    ensures
        is == (text_of(*string) == Some(expected@)),
{
    match string {
        None => false,
        Some(s) => *s == expected.to_string(),
    }
}

/// The text, or `default` where there is none.
pub fn text_or(string: &Option<String>, default: &str) -> (text: String)
    ensures
        text@ == (match text_of(*string) {
            None => default@,
            Some(t) => t,
        }),
{
    match string {
        None => default.to_string(),
        Some(s) => s.clone(),
    }
}

} // verus!
