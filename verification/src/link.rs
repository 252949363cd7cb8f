//! URLs as text: parsing, cutting down to a site's root, resolving a link
//! against a base, and the way back from a URL to a relative link.

use vstd::prelude::*;
use crate::text::text_result;
use crate::text::text_option;

verus! {

/// What `Url::parse` makes of a text: the URL in its serialised form, or the
/// message of the error.
pub uninterp spec fn url_parsed(input: Seq<char>) -> Result<Seq<char>, Seq<char>>;

/// What is left of a URL when its path segments are cleared: nothing, if the
/// URL cannot be a base; the message of the error, if the text is no URL.
pub uninterp spec fn url_without_path(url: Seq<char>) -> Result<Option<Seq<char>>, Seq<char>>;

/// A URL with its query taken off; the message of the error, if the text is
/// no URL.
pub uninterp spec fn url_without_query(url: Seq<char>) -> Result<Seq<char>, Seq<char>>;

/// The URL that a reference resolves to against a base; the message of the
/// error, if the base is no URL or the reference cannot be resolved.
pub uninterp spec fn url_joined(base: Seq<char>, reference: Seq<char>) -> Result<
    Seq<char>,
    Seq<char>,
>;

/// The relative reference that leads from a base to a URL, if there is one;
/// the message of the error, if one of the two texts is no URL.
pub uninterp spec fn url_relative(base: Seq<char>, url: Seq<char>) -> Result<
    Option<Seq<char>>,
    Seq<char>,
>;

/// A text, if there is one, or a message, as sequences of characters.
pub open spec fn text_option_result(r: Result<Option<String>, String>) -> Result<
    Option<Seq<char>>,
    Seq<char>,
> {
    match r {
        Ok(o) => Ok(text_option(o)),
        Err(m) => Err(m@),
    }
}

/// `Url::parse` of the url crate: the serialised URL, or the text of the
/// parse error. The contract only names the result.
#[verifier::external_body]
pub(crate) fn parse_url(input: &str) -> (out: Result<String, String>)
    ensures
        text_result(out) == url_parsed(input@),
{
    match url::Url::parse(input) {
        Ok(url) => Ok(String::from(url)),
        Err(e) => Err(e.to_string()),
    }
}

/// `Url::path_segments_mut` and `PathSegmentsMut::clear` of the url crate, on
/// the URL that the text parses to: the URL without its path, `None` where
/// the URL cannot be a base, or the text of the parse error. The contract
/// only names the result.
#[verifier::external_body]
pub(crate) fn clear_path(url: &str) -> (out: Result<Option<String>, String>)
    ensures
        text_option_result(out) == url_without_path(url@),
{
    let mut parsed = match url::Url::parse(url) {
        Ok(parsed) => parsed,
        Err(e) => return Err(e.to_string()),
    };
    match parsed.path_segments_mut() {
        Ok(mut path) => {
            path.clear();
        },
        Err(()) => return Ok(None),
    }
    Ok(Some(String::from(parsed)))
}

/// `Url::set_query` of the url crate with no query, on the URL that the text
/// parses to: the URL without its query, or the text of the parse error. The
/// contract only names the result.
#[verifier::external_body]
pub(crate) fn clear_query(url: &str) -> (out: Result<String, String>)
    ensures
        text_result(out) == url_without_query(url@),
{
    match url::Url::parse(url) {
        Ok(mut parsed) => {
            parsed.set_query(None);
            Ok(String::from(parsed))
        },
        Err(e) => Err(e.to_string()),
    }
}

/// `Url::join` of the url crate, on the URL that `base` parses to: the URL
/// that `reference` resolves to, or the text of the parse error of either.
/// The contract only names the result.
#[verifier::external_body]
pub(crate) fn join_url(base: &str, reference: &str) -> (out: Result<String, String>)
    ensures
        text_result(out) == url_joined(base@, reference@),
{
    let parsed = match url::Url::parse(base) {
        Ok(parsed) => parsed,
        Err(e) => return Err(e.to_string()),
    };
    match parsed.join(reference) {
        Ok(url) => Ok(String::from(url)),
        Err(e) => Err(e.to_string()),
    }
}

/// `Url::make_relative` of the url crate, on the URLs that the two texts
/// parse to: the relative reference from `base` to `url`, `None` where there
/// is none, or the text of the parse error of either. The contract only
/// names the result.
#[verifier::external_body]
pub(crate) fn relative_url(base: &str, url: &str) -> (out: Result<Option<String>, String>)
    ensures
        text_option_result(out) == url_relative(base@, url@),
{
    let from = match url::Url::parse(base) {
        Ok(parsed) => parsed,
        Err(e) => return Err(e.to_string()),
    };
    match url::Url::parse(url) {
        Ok(to) => Ok(from.make_relative(&to)),
        Err(e) => Err(e.to_string()),
    }
}

} // verus!
