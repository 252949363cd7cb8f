//! Regular expressions as text: whether a pattern compiles, and the
//! replacement of all its matches.

use vstd::prelude::*;
use crate::text::text_option;

verus! {

/// The message of the error with which a pattern fails to compile, if it
/// does.
pub uninterp spec fn pattern_fault(pattern: Seq<char>) -> Option<Seq<char>>;

/// A text with all matches of a pattern replaced; nothing, if the pattern
/// does not compile.
pub uninterp spec fn pattern_replaced(
    pattern: Seq<char>,
    text: Seq<char>,
    replacement: Seq<char>,
) -> Option<Seq<char>>;

/// `Regex::new` of the regex crate: the text of the error, if the pattern
/// does not compile. The contract only names the result.
#[verifier::external_body]
pub(crate) fn compile_fault(pattern: &str) -> (out: Option<String>)
    ensures
        text_option(out) == pattern_fault(pattern@),
{
    match regex::Regex::new(pattern) {
        Ok(_) => None,
        Err(e) => Some(e.to_string()),
    }
}

/// `Regex::replace_all` of the regex crate, on the expression that the
/// pattern compiles to: the text with every match replaced, or `None` where
/// the pattern does not compile. The contract only names the result.
#[verifier::external_body]
pub(crate) fn replace_all(pattern: &str, text: &str, replacement: &str) -> (out: Option<String>)
    ensures
        text_option(out) == pattern_replaced(pattern@, text@, replacement@),
{
    match regex::Regex::new(pattern) {
        Ok(expression) => Some(expression.replace_all(text, replacement).into_owned()),
        Err(_) => None,
    }
}

} // verus!
