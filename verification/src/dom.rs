//! Questions to an HTML document: the texts and the attributes of the
//! elements that a selector finds.

use vstd::prelude::*;
use crate::selector::is_selector;
use crate::text::text_list;
use crate::text::text_options;

verus! {

/// The text of each element that the selector finds in the document, in the
/// document's order; the message of the error, if the document cannot be
/// loaded.
pub uninterp spec fn dom_texts(html: Seq<char>, selector: Seq<char>) -> Result<
    Seq<Seq<char>>,
    Seq<char>,
>;

/// The value of the named attribute of each element that the selector finds
/// in the document, where the element has it; the message of the error, if
/// the document cannot be loaded.
pub uninterp spec fn dom_attrs(html: Seq<char>, selector: Seq<char>, name: Seq<char>) -> Result<
    Seq<Option<Seq<char>>>,
    Seq<char>,
>;

/// The text of each element that `selector` finds in the document once the
/// elements that `removed` finds are taken out of it; the message of the
/// error, if the document cannot be loaded.
pub uninterp spec fn dom_texts_without(
    html: Seq<char>,
    removed: Seq<char>,
    selector: Seq<char>,
) -> Result<Seq<Seq<char>>, Seq<char>>;

/// Texts or a message, as sequences of characters.
pub open spec fn texts_result(r: Result<Vec<String>, String>) -> Result<
    Seq<Seq<char>>,
    Seq<char>,
> {
    match r {
        Ok(list) => Ok(text_list(list@)),
        Err(m) => Err(m@),
    }
}

/// Attribute values or a message, as sequences of characters.
pub open spec fn attrs_result(r: Result<Vec<Option<String>>, String>) -> Result<
    Seq<Option<Seq<char>>>,
    Seq<char>,
> {
    match r {
        Ok(list) => Ok(text_options(list@)),
        Err(m) => Err(m@),
    }
}

/// `Vis::load` and `Elements::find` of the visdom crate, then the text of
/// each element found: the texts in the document's order, or the text of the
/// error with which the document fails to load. The contract only names the
/// result. The selector is one of the readers' own: visdom does not return
/// for every text that it is given as a selector.
#[verifier::external_body]
pub(crate) fn select_texts(html: &str, selector: &str) -> (out: Result<Vec<String>, String>)
    requires
        is_selector(selector@),
    ensures
        texts_result(out) == dom_texts(html@, selector@),
{
    let document = match visdom::Vis::load(html) {
        Ok(document) => document,
        Err(e) => return Err(e.to_string()),
    };
    let mut out = Vec::new();
    for element in document.find(selector) {
        out.push(element.text());
    }
    Ok(out)
}

/// `Vis::load` and `Elements::find` of the visdom crate, then the named
/// attribute of each element found: the values in the document's order,
/// `None` for an element without the attribute, or the text of the error
/// with which the document fails to load. The contract only names the
/// result. The selector is one of the readers' own.
#[verifier::external_body]
pub(crate) fn select_attrs(html: &str, selector: &str, name: &str) -> (out: Result<
    Vec<Option<String>>,
    String,
>)
    requires
        is_selector(selector@),
    ensures
        attrs_result(out) == dom_attrs(html@, selector@, name@),
{
    let document = match visdom::Vis::load(html) {
        Ok(document) => document,
        Err(e) => return Err(e.to_string()),
    };
    let mut out = Vec::new();
    for element in document.find(selector) {
        out.push(
            match element.get_attribute(name) {
                Some(value) => Some(value.to_string()),
                None => None,
            },
        );
    }
    Ok(out)
}

/// `Vis::load`, `Elements::find` and `Elements::remove` of the visdom crate,
/// then the text of each element that `selector` finds in what is left: the
/// texts in the document's order, or the text of the error with which the
/// document fails to load. The contract only names the result. Both
/// selectors are of the readers' own.
#[verifier::external_body]
pub(crate) fn select_texts_without(html: &str, removed: &str, selector: &str) -> (out: Result<
    Vec<String>,
    String,
>)
    requires
        is_selector(removed@),
        is_selector(selector@),
    ensures
        texts_result(out) == dom_texts_without(html@, removed@, selector@),
{
    let document = match visdom::Vis::load(html) {
        Ok(document) => document,
        Err(e) => return Err(e.to_string()),
    };
    document.find(removed).remove();
    let mut out = Vec::new();
    for element in document.find(selector) {
        out.push(element.text());
    }
    Ok(out)
}

} // verus!
