//! What the sites share: reading texts, attributes and links out of a
//! document, finding a site's base, and cleaning a chapter's text.

use vstd::prelude::*;
use crate::dom::dom_attrs;
use crate::dom::dom_texts;
use crate::dom::dom_texts_without;
use crate::dom::select_attrs;
use crate::dom::select_texts;
use crate::dom::select_texts_without;
use crate::error::NovelError;
use crate::error::NovelErrorView;
use crate::chapter::Book;
use crate::chapter::BookView;
use crate::chapter::Chapter;
use crate::chapter::ChapterView;
use crate::lines::after_first;
use crate::lines::join_from;
use crate::lines::joined;
use crate::lines::remove_chars;
use crate::lines::replace;
use crate::lines::replaced;
use crate::lines::rows;
use crate::lines::split;
use crate::lines::split_at;
use crate::lines::split_at_any;
use crate::lines::split_at_each;
use crate::lines::tidy;
use crate::lines::trim;
use crate::lines::trim_and_keep;
use crate::lines::trimmed;
use crate::lines::without_chars;
use crate::link::clear_path;
use crate::link::clear_query;
use crate::link::join_url;
use crate::link::parse_url;
use crate::link::url_joined;
use crate::link::url_parsed;
use crate::link::url_without_path;
use crate::link::url_without_query;
use crate::pattern::compile_fault;
use crate::selector::Selector;
use crate::selector::selector_text;
use crate::pattern::pattern_fault;
use crate::pattern::pattern_replaced;
use crate::pattern::replace_all;
use crate::text::chars_of;
use crate::text::string_of;
use crate::text::text_list;
use crate::text::text_options;

verus! {

/// A text or an error, as contracts see them.
pub open spec fn text_or_error(r: Result<String, NovelError>) -> Result<Seq<char>, NovelErrorView> {
    match r {
        Ok(s) => Ok(s@),
        Err(e) => Err(e@),
    }
}

/// Texts or an error, as contracts see them.
pub open spec fn texts_or_error(r: Result<Vec<String>, NovelError>) -> Result<
    Seq<Seq<char>>,
    NovelErrorView,
> {
    match r {
        Ok(list) => Ok(text_list(list@)),
        Err(e) => Err(e@),
    }
}

/// A book or an error, as contracts see them.
pub open spec fn book_or_error(r: Result<Book, NovelError>) -> Result<BookView, NovelErrorView> {
    match r {
        Ok(book) => Ok(book@),
        Err(e) => Err(e@),
    }
}

/// A chapter or an error, as contracts see them.
pub open spec fn chapter_or_error(r: Result<Chapter, NovelError>) -> Result<
    ChapterView,
    NovelErrorView,
> {
    match r {
        Ok(chapter) => Ok(chapter@),
        Err(e) => Err(e@),
    }
}

/// The text without the white space at its ends.
pub fn trim_text(text: &str) -> (out: String)
    ensures
        out@ == trimmed(text@),
{
    let chars = chars_of(text);
    let kept = trim(&chars);
    string_of(&kept)
}

/// The text with every occurrence of `pat` replaced by `to`.
pub fn replace_text(text: &str, pat: &str, to: &str) -> (out: String)
    ensures
        out@ == replaced(text@, pat@, to@),
{
    let chars = chars_of(text);
    let from = chars_of(pat);
    let into = chars_of(to);
    let changed = replace(&chars, &from, &into);
    string_of(&changed)
}

/// The text without the characters that are among `drop`.
pub fn remove_from_text(text: &str, drop: &Vec<char>) -> (out: String)
    ensures
        out@ == without_chars(text@, drop@),
{
    let chars = chars_of(text);
    let kept = remove_chars(&chars, drop);
    string_of(&kept)
}

/// The texts one after another.
pub open spec fn concat(texts: Seq<Seq<char>>) -> Seq<char> {
    joined(texts, Seq::empty())
}

/// The text of all that a selector finds in a document.
pub open spec fn selected_text(document: Seq<char>, selector: Seq<char>) -> Result<
    Seq<char>,
    NovelErrorView,
> {
    match dom_texts(document, selector) {
        Ok(texts) => Ok(concat(texts)),
        Err(m) => Err(NovelErrorView::VisdomError(m)),
    }
}

/// Joins the texts without anything between them.
pub fn concat_texts(texts: &Vec<String>) -> (out: String)
    ensures
        out@ == concat(text_list(texts@)),
{
    let mut out = String::new();
    let mut i: usize = 0;
    let ghost all = text_list(texts@);
    assert(all.take(0) =~= Seq::<Seq<char>>::empty());
    while i < texts.len()
        invariant
            0 <= i <= texts.len(),
            all == text_list(texts@),
            out@ == concat(all.take(i as int)),
        decreases texts.len() - i,
    {
        let ghost before = out@;
        out.append(texts[i].as_str());
        proof {
            let longer = all.take(i + 1);
            assert(longer.drop_last() =~= all.take(i as int));
            assert(longer.last() == texts@[i as int]@);
            if i == 0 {
                assert(before + texts@[i as int]@ =~= longer[0]);
            } else {
                assert(before + texts@[i as int]@ =~= before + Seq::<char>::empty() + longer.last());
            }
        }
        i += 1;
    }
    assert(all.take(all.len() as int) =~= all);
    out
}

/// The text of all that the selector finds in the document, the elements'
/// texts one after another.
pub fn select_text(document: &str, selector: Selector) -> (out: Result<String, NovelError>)
    ensures
        text_or_error(out) == selected_text(document@, selector_text(selector)),
{
    match select_texts(document, selector.text()) {
        Ok(texts) => Ok(concat_texts(&texts)),
        Err(m) => Err(NovelError::VisdomError(m)),
    }
}

/// The text of each element that a selector finds in a document.
pub open spec fn selected_texts(document: Seq<char>, selector: Seq<char>) -> Result<
    Seq<Seq<char>>,
    NovelErrorView,
> {
    match dom_texts(document, selector) {
        Ok(texts) => Ok(texts),
        Err(m) => Err(NovelErrorView::VisdomError(m)),
    }
}

/// The text of each element that the selector finds in the document, in
/// the document's order.
pub fn select_each_text(document: &str, selector: Selector) -> (out: Result<
    Vec<String>,
    NovelError,
>)
    ensures
        texts_or_error(out) == selected_texts(document@, selector_text(selector)),
{
    match select_texts(document, selector.text()) {
        Ok(texts) => Ok(texts),
        Err(m) => Err(NovelError::VisdomError(m)),
    }
}

/// The targets of the links that a selector finds in a document, where a
/// link has one.
pub open spec fn selected_targets(document: Seq<char>, selector: Seq<char>) -> Result<
    Seq<Option<Seq<char>>>,
    NovelErrorView,
> {
    match dom_attrs(document, selector, href()) {
        Ok(targets) => Ok(targets),
        Err(m) => Err(NovelErrorView::VisdomError(m)),
    }
}

/// Targets or an error, as contracts see them.
pub open spec fn targets_or_error(r: Result<Vec<Option<String>>, NovelError>) -> Result<
    Seq<Option<Seq<char>>>,
    NovelErrorView,
> {
    match r {
        Ok(list) => Ok(text_options(list@)),
        Err(e) => Err(e@),
    }
}

/// The target of each link that the selector finds in the document, in the
/// document's order; `None` for a link without one.
pub fn select_targets(document: &str, selector: Selector) -> (out: Result<
    Vec<Option<String>>,
    NovelError,
>)
    ensures
        targets_or_error(out) == selected_targets(document@, selector_text(selector)),
{
    match select_attrs(document, selector.text(), "href") {
        Ok(targets) => Ok(targets),
        Err(m) => Err(NovelError::VisdomError(m)),
    }
}

/// The named attribute of the first element that a selector finds in a
/// document, if an element is found and has it.
pub open spec fn selected_attr(document: Seq<char>, selector: Seq<char>, name: Seq<char>) -> Result<
    Option<Seq<char>>,
    NovelErrorView,
> {
    match dom_attrs(document, selector, name) {
        Ok(values) => Ok(
            if values.len() > 0 {
                values[0]
            } else {
                None
            },
        ),
        Err(m) => Err(NovelErrorView::VisdomError(m)),
    }
}

/// A text, if there is one, or an error, as contracts see them.
pub open spec fn option_or_error(r: Result<Option<String>, NovelError>) -> Result<
    Option<Seq<char>>,
    NovelErrorView,
> {
    match r {
        Ok(Some(s)) => Ok(Some(s@)),
        Ok(None) => Ok(None),
        Err(e) => Err(e@),
    }
}

/// The named attribute of the first element that the selector finds.
pub fn select_attr(document: &str, selector: Selector, name: &str) -> (out: Result<
    Option<String>,
    NovelError,
>)
    ensures
        option_or_error(out) == selected_attr(document@, selector_text(selector), name@),
{
    match select_attrs(document, selector.text(), name) {
        Ok(values) => {
            let mut values = values;
            let ghost all = values@;
            values.truncate(1);
            match values.pop() {
                Some(first) => {
                    assert(first == all[0]);
                    Ok(first)
                },
                None => Ok(None),
            }
        },
        Err(m) => Err(NovelError::VisdomError(m)),
    }
}

/// The name of the attribute that holds a link's target.
pub open spec fn href() -> Seq<char> {
    "href"@
}

/// The links resolved against a base, in their order: the first link
/// without a target, or whose target cannot be resolved, fails the whole.
pub open spec fn resolved_links(targets: Seq<Option<Seq<char>>>, base: Seq<char>) -> Result<
    Seq<Seq<char>>,
    NovelErrorView,
>
    decreases targets.len(),
{
    if targets.len() == 0 {
        Ok(Seq::empty())
    } else {
        match resolved_links(targets.drop_last(), base) {
            Err(e) => Err(e),
            Ok(done) => match targets.last() {
                None => Err(NovelErrorView::NotFound(href())),
                Some(target) => match url_joined(base, target) {
                    Ok(url) => Ok(done.push(url)),
                    Err(m) => Err(NovelErrorView::ParseError(m)),
                },
            },
        }
    }
}

/// Resolves each link's target against the base.
pub fn resolve_links(targets: &Vec<Option<String>>, base: &str) -> (out: Result<
    Vec<String>,
    NovelError,
>)
    ensures
        texts_or_error(out) == resolved_links(text_options(targets@), base@),
{
    let mut out: Vec<String> = Vec::new();
    let mut i: usize = 0;
    let ghost all = text_options(targets@);
    assert(all.take(0) =~= Seq::<Option<Seq<char>>>::empty());
    assert(text_list(out@) =~= Seq::<Seq<char>>::empty());
    while i < targets.len()
        invariant
            0 <= i <= targets.len(),
            all == text_options(targets@),
            resolved_links(all.take(i as int), base@) == Ok::<Seq<Seq<char>>, NovelErrorView>(
                text_list(out@),
            ),
        decreases targets.len() - i,
    {
        proof {
            let longer = all.take(i + 1);
            assert(longer.drop_last() =~= all.take(i as int));
            assert(longer.last() == all[i as int]);
        }
        let ghost before = text_list(out@);
        match &targets[i] {
            None => {
                proof {
                    lemma_resolved_links_fails(all, base@, i + 1);
                }
                return Err(NovelError::NotFound(String::from_str("href")));
            },
            Some(target) => match join_url(base, target.as_str()) {
                Ok(url) => {
                    out.push(url);
                    assert(text_list(out@) =~= before.push(url@));
                },
                Err(m) => {
                    proof {
                        lemma_resolved_links_fails(all, base@, i + 1);
                    }
                    return Err(NovelError::ParseError(m));
                },
            },
        }
        i += 1;
    }
    assert(all.take(all.len() as int) =~= all);
    Ok(out)
}

/// The targets of the links that a selector finds in a document, resolved
/// against a base.
pub open spec fn selected_links(document: Seq<char>, selector: Seq<char>, base: Seq<char>) -> Result<
    Seq<Seq<char>>,
    NovelErrorView,
> {
    match dom_attrs(document, selector, href()) {
        Err(m) => Err(NovelErrorView::VisdomError(m)),
        Ok(targets) => resolved_links(targets, base),
    }
}

/// Reads the targets of the links that the selector finds and resolves them
/// against the base.
pub fn select_links(document: &str, selector: Selector, base: &str) -> (out: Result<
    Vec<String>,
    NovelError,
>)
    ensures
        texts_or_error(out) == selected_links(document@, selector_text(selector), base@),
{
    match select_attrs(document, selector.text(), "href") {
        Err(m) => Err(NovelError::VisdomError(m)),
        Ok(targets) => resolve_links(&targets, base),
    }
}

/// The text of all that `selector` finds in a document from which the
/// elements that `removed` finds were taken out.
pub open spec fn selected_text_without(
    document: Seq<char>,
    removed: Seq<char>,
    selector: Seq<char>,
) -> Result<Seq<char>, NovelErrorView> {
    match dom_texts_without(document, removed, selector) {
        Ok(texts) => Ok(concat(texts)),
        Err(m) => Err(NovelErrorView::VisdomError(m)),
    }
}

/// The text of all that `selector` finds once the elements that `removed`
/// finds are taken out of the document.
pub fn select_text_without(document: &str, removed: Selector, selector: Selector) -> (out: Result<
    String,
    NovelError,
>)
    ensures
        text_or_error(out) == selected_text_without(
            document@,
            selector_text(removed),
            selector_text(selector),
        ),
{
    match select_texts_without(document, removed.text(), selector.text()) {
        Ok(texts) => Ok(concat_texts(&texts)),
        Err(m) => Err(NovelError::VisdomError(m)),
    }
}

/// Once a link fails, the whole fails with its error, whatever follows.
pub proof fn lemma_resolved_links_fails(targets: Seq<Option<Seq<char>>>, base: Seq<char>, n: int)
    requires
        0 <= n <= targets.len(),
        resolved_links(targets.take(n), base) is Err,
    ensures
        resolved_links(targets, base) == resolved_links(targets.take(n), base),
    decreases targets.len() - n,
{
    if n == targets.len() {
        assert(targets.take(n) =~= targets);
    } else {
        assert(targets.take(n + 1).drop_last() =~= targets.take(n));
        lemma_resolved_links_fails(targets, base, n + 1);
    }
}

/// A text pattern and what replaces its matches.
#[derive(Debug, Clone, PartialEq, Eq)]
pub struct Replacement {
    pub pattern: String,
    pub replacement: String,
}

/// A replacement as contracts see it.
pub struct ReplacementView {
    pub pattern: Seq<char>,
    pub replacement: Seq<char>,
}

impl View for Replacement {
    type V = ReplacementView;

    open spec fn view(&self) -> ReplacementView {
        ReplacementView { pattern: self.pattern@, replacement: self.replacement@ }
    }
}

/// The replacements of a list as contracts see them.
pub open spec fn replacement_views(list: Seq<Replacement>) -> Seq<ReplacementView> {
    list.map_values(|r: Replacement| r@)
}

/// The message of the first pattern of the list that does not compile.
pub open spec fn first_fault(list: Seq<ReplacementView>) -> Option<Seq<char>>
    decreases list.len(),
{
    if list.len() == 0 {
        None
    } else {
        match first_fault(list.drop_last()) {
            Some(m) => Some(m),
            None => pattern_fault(list.last().pattern),
        }
    }
}

/// Once a pattern fails, the list fails with its message, whatever follows.
pub proof fn lemma_first_fault_stays(list: Seq<ReplacementView>, n: int)
    requires
        0 <= n <= list.len(),
        first_fault(list.take(n)) is Some,
    ensures
        first_fault(list) == first_fault(list.take(n)),
    decreases list.len() - n,
{
    if n == list.len() {
        assert(list.take(n) =~= list);
    } else {
        assert(list.take(n + 1).drop_last() =~= list.take(n));
        lemma_first_fault_stays(list, n + 1);
    }
}

/// Tells whether every pattern of the list compiles; the first that does
/// not gives the error.
pub fn check_patterns(list: &Vec<Replacement>) -> (out: Result<(), NovelError>)
    ensures
        match first_fault(replacement_views(list@)) {
            Some(m) => out is Err && out->Err_0@ == NovelErrorView::RegexError(m),
            None => out is Ok,
        },
{
    let mut i: usize = 0;
    let ghost all = replacement_views(list@);
    assert(all.take(0) =~= Seq::<ReplacementView>::empty());
    while i < list.len()
        invariant
            0 <= i <= list.len(),
            all == replacement_views(list@),
            first_fault(all.take(i as int)) is None,
        decreases list.len() - i,
    {
        proof {
            let longer = all.take(i + 1);
            assert(longer.drop_last() =~= all.take(i as int));
            assert(longer.last() == list@[i as int]@);
        }
        match compile_fault(list[i].pattern.as_str()) {
            Some(m) => {
                proof {
                    lemma_first_fault_stays(all, i + 1);
                }
                return Err(NovelError::RegexError(m));
            },
            None => {},
        }
        i += 1;
    }
    assert(all.take(all.len() as int) =~= all);
    Ok(())
}

/// The text after one replacement; a pattern that does not compile changes
/// nothing.
pub open spec fn pattern_applied(text: Seq<char>, r: ReplacementView) -> Seq<char> {
    match pattern_replaced(r.pattern, text, r.replacement) {
        Some(changed) => changed,
        None => text,
    }
}

/// The text after the replacements of the list, one after another.
pub open spec fn patterns_applied(text: Seq<char>, list: Seq<ReplacementView>) -> Seq<char>
    decreases list.len(),
{
    if list.len() == 0 {
        text
    } else {
        pattern_applied(patterns_applied(text, list.drop_last()), list.last())
    }
}

/// Applies the replacements of the list to the text, one after another.
pub fn apply_patterns(text: String, list: &Vec<Replacement>) -> (out: String)
    ensures
        out@ == patterns_applied(text@, replacement_views(list@)),
{
    let mut out = text;
    let mut i: usize = 0;
    let ghost all = replacement_views(list@);
    assert(all.take(0) =~= Seq::<ReplacementView>::empty());
    while i < list.len()
        invariant
            0 <= i <= list.len(),
            all == replacement_views(list@),
            out@ == patterns_applied(text@, all.take(i as int)),
        decreases list.len() - i,
    {
        proof {
            let longer = all.take(i + 1);
            assert(longer.drop_last() =~= all.take(i as int));
            assert(longer.last() == list@[i as int]@);
        }
        match replace_all(list[i].pattern.as_str(), out.as_str(), list[i].replacement.as_str()) {
            Some(changed) => {
                out = changed;
            },
            None => {},
        }
        i += 1;
    }
    assert(all.take(all.len() as int) =~= all);
    out
}

/// The base of a site: the URL of one of its pages without path and query.
pub open spec fn site_base_of(url: Seq<char>) -> Result<Seq<char>, NovelErrorView> {
    match url_without_path(url) {
        Err(m) => Err(NovelErrorView::ParseError(m)),
        Ok(None) => Err(NovelErrorView::CannotBeABase(url)),
        Ok(Some(cleared)) => match url_without_query(cleared) {
            Err(m) => Err(NovelErrorView::ParseError(m)),
            Ok(base) => Ok(base),
        },
    }
}

/// Finds the base of the site that the page at `url` belongs to.
pub fn site_base(url: &str) -> (out: Result<String, NovelError>)
    ensures
        text_or_error(out) == site_base_of(url@),
{
    match clear_path(url) {
        Err(m) => Err(NovelError::ParseError(m)),
        Ok(None) => Err(NovelError::CannotBeABase(String::from_str(url))),
        Ok(Some(cleared)) => match clear_query(cleared.as_str()) {
            Err(m) => Err(NovelError::ParseError(m)),
            Ok(base) => Ok(base),
        },
    }
}

/// A URL in its serialised form.
pub open spec fn page_url_of(url: Seq<char>) -> Result<Seq<char>, NovelErrorView> {
    match url_parsed(url) {
        Ok(parsed) => Ok(parsed),
        Err(m) => Err(NovelErrorView::ParseError(m)),
    }
}

/// Reads a URL and gives it back in its serialised form.
pub fn page_url(url: &str) -> (out: Result<String, NovelError>)
    ensures
        text_or_error(out) == page_url_of(url@),
{
    match parse_url(url) {
        Ok(parsed) => Ok(parsed),
        Err(m) => Err(NovelError::ParseError(m)),
    }
}

/// The line feed.
pub open spec fn line_feed() -> Seq<char> {
    seq!['\n']
}

/// The lines of a text: cut at the separators, trimmed, the empty ones and
/// the first `skip` of the others left out, joined by line feeds.
pub open spec fn cleaned_lines(text: Seq<char>, seps: Seq<char>, skip: nat) -> Seq<char> {
    joined(after_first(tidy(split_at_any(text, seps)), skip), line_feed())
}

/// Cuts the text into lines at the separators, trims them, leaves out the
/// empty ones and the first `skip` of the others, and joins the rest by line
/// feeds.
pub fn clean_lines(text: &str, seps: &Vec<char>, skip: usize) -> (out: String)
    ensures
        out@ == cleaned_lines(text@, seps@, skip as nat),
{
    let chars = chars_of(text);
    let pieces = split(&chars, seps);
    let kept = trim_and_keep(&pieces);
    let feed: Vec<char> = vec!['\n'];
    assert(feed@ =~= line_feed());
    let cleaned = join_from(&kept, skip, &feed);
    string_of(&cleaned)
}

/// The pieces into which `pat` cuts a text, trimmed, the empty ones left
/// out, joined by line feeds.
pub open spec fn cleaned_pieces(text: Seq<char>, pat: Seq<char>) -> Seq<char> {
    joined(tidy(split_at_each(text, pat)), line_feed())
}

/// Cuts the text at every occurrence of `pat`, trims the pieces, leaves out
/// the empty ones and joins the rest by line feeds.
pub fn clean_pieces(text: &str, pat: &str) -> (out: String)
    ensures
        out@ == cleaned_pieces(text@, pat@),
{
    let chars = chars_of(text);
    let cut = chars_of(pat);
    let pieces = split_at(&chars, &cut);
    let kept = trim_and_keep(&pieces);
    let feed: Vec<char> = vec!['\n'];
    assert(feed@ =~= line_feed());
    let cleaned = join_from(&kept, 0, &feed);
    assert(rows(kept@).skip(0) =~= rows(kept@));
    string_of(&cleaned)
}

/// The texts, each trimmed, joined by line feeds.
pub open spec fn trimmed_and_joined(texts: Seq<Seq<char>>) -> Seq<char> {
    joined(texts.map_values(|t: Seq<char>| trimmed(t)), line_feed())
}

/// Trims each text and joins them by line feeds.
pub fn trim_and_join(texts: &Vec<String>) -> (out: String)
    ensures
        out@ == trimmed_and_joined(text_list(texts@)),
{
    let mut pieces: Vec<Vec<char>> = Vec::new();
    let mut i: usize = 0;
    let ghost all = text_list(texts@).map_values(|t: Seq<char>| trimmed(t));
    assert(rows(pieces@) =~= all.take(0));
    while i < texts.len()
        invariant
            0 <= i <= texts.len(),
            all == text_list(texts@).map_values(|t: Seq<char>| trimmed(t)),
            rows(pieces@) == all.take(i as int),
        decreases texts.len() - i,
    {
        let piece = trim(&chars_of(texts[i].as_str()));
        let ghost before = rows(pieces@);
        pieces.push(piece);
        assert(rows(pieces@) =~= before.push(piece@));
        assert(all.take(i + 1) =~= all.take(i as int).push(all[i as int]));
        i += 1;
    }
    assert(all.take(all.len() as int) =~= all);
    let feed: Vec<char> = vec!['\n'];
    assert(feed@ =~= line_feed());
    let out = join_from(&pieces, 0, &feed);
    assert(rows(pieces@).skip(0) =~= rows(pieces@));
    string_of(&out)
}

/// The list in reverse.
pub fn reversed(list: Vec<String>) -> (out: Vec<String>)
    ensures
        text_list(out@) == text_list(list@).reverse(),
{
    let mut rest = list;
    let mut out: Vec<String> = Vec::new();
    let ghost all = text_list(list@);
    assert(text_list(out@) =~= all.reverse().take(0));
    while rest.len() > 0
        invariant
            rest.len() <= all.len(),
            text_list(rest@) == all.take(rest.len() as int),
            text_list(out@) == all.reverse().take(all.len() - rest.len()),
        decreases rest.len(),
    {
        let ghost before = text_list(out@);
        let ghost held = rest@;
        let last = rest.pop();
        match last {
            Some(item) => {
                out.push(item);
                proof {
                    let n = all.len() - held.len();
                    assert(item == held[held.len() - 1]);
                    assert(text_list(held)[held.len() - 1] == item@);
                    assert(all.reverse()[n] == all[held.len() - 1]);
                    assert(text_list(out@) =~= before.push(item@));
                    assert(all.reverse().take(n + 1) =~= all.reverse().take(n).push(
                        all.reverse()[n],
                    ));
                    assert(text_list(rest@) =~= all.take(rest.len() as int));
                }
            },
            None => {},
        }
    }
    assert(all.reverse().take(all.len() as int) =~= all.reverse());
    out
}

} // verus!
