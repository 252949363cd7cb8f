//! 黃金屋 <https://tw.hjwzw.com/>

use vstd::prelude::*;
use crate::chapter::Book;
use crate::chapter::BookView;
use crate::chapter::Chapter;
use crate::chapter::ChapterView;
use crate::error::NovelError;
use crate::selector::Selector;
use crate::error::NovelErrorView;
use crate::extract::apply_patterns;
use crate::extract::book_or_error;
use crate::extract::chapter_or_error;
use crate::extract::check_patterns;
use crate::extract::clean_lines;
use crate::extract::cleaned_lines;
use crate::extract::first_fault;
use crate::extract::patterns_applied;
use crate::extract::replace_text;
use crate::extract::replacement_views;
use crate::extract::select_links;
use crate::extract::select_text;
use crate::extract::select_text_without;
use crate::extract::selected_links;
use crate::extract::selected_text;
use crate::extract::selected_text_without;
use crate::extract::site_base;
use crate::extract::site_base_of;
use crate::extract::texts_or_error;
use crate::extract::trim_text;
use crate::extract::Replacement;
use crate::extract::ReplacementView;
use crate::lines::replaced;
use crate::lines::trimmed;

verus! {

/// What is replaced in a chapter's text.
pub open spec fn hjwzw_patterns() -> Seq<ReplacementView> {
    seq![ReplacementView { pattern: ""@, replacement: ""@ }]
}

/// The reader for the site of the page at `url`.
pub open spec fn hjwzw_reader(url: Seq<char>) -> Result<HjwzwView, NovelErrorView> {
    match site_base_of(url) {
        Err(e) => Err(e),
        Ok(base) => match first_fault(hjwzw_patterns()) {
            Some(m) => Err(NovelErrorView::RegexError(m)),
            None => Ok(HjwzwView { base, replacer: hjwzw_patterns() }),
        },
    }
}

/// The book that a table of contents names.
pub open spec fn hjwzw_book(document: Seq<char>) -> Result<BookView, NovelErrorView> {
    match selected_text(document, "h1"@) {
        Err(e) => Err(e),
        Ok(name) => match selected_text(
            document,
            "body > div:first-child > table:nth-of-type(7) tr:nth-child(2) a:first-child"@,
        ) {
            Err(e) => Err(e),
            Ok(author) => Ok(BookView { name, author: replaced(author, "作者 / "@, ""@) }),
        },
    }
}

/// The chapter that a page holds, under the given order key: its heading,
/// and its text without the advertisement.
pub open spec fn hjwzw_chapter(document: Seq<char>, order: Seq<char>) -> Result<
    ChapterView,
    NovelErrorView,
> {
    match selected_text(document, "table:nth-of-type(7) h1"@) {
        Err(e) => Err(e),
        Ok(title) => match selected_text_without(
            document,
            "div#Pan_Ad1"@,
            "table:nth-of-type(7) div:nth-of-type(4)"@,
        ) {
            Err(e) => Err(e),
            Ok(text) => Ok(ChapterView { order, title: trimmed(title), text }),
        },
    }
}

/// A chapter's text, cleaned: its lines without the first two, then the
/// replacements.
pub open spec fn hjwzw_text(text: Seq<char>, replacer: Seq<ReplacementView>) -> Seq<char> {
    patterns_applied(cleaned_lines(text, seq!['\n', '\r'], 2), replacer)
}

/// The reader as contracts see it.
pub struct HjwzwView {
    pub base: Seq<char>,
    pub replacer: Seq<ReplacementView>,
}

/// The site's reader.
pub struct Hjwzw {
    base: String,
    replacer: Vec<Replacement>,
}

impl View for Hjwzw {
    type V = HjwzwView;

    closed spec fn view(&self) -> HjwzwView {
        HjwzwView { base: self.base@, replacer: replacement_views(self.replacer@) }
    }
}

/// A reader or an error, as contracts see them.
pub open spec fn hjwzw_or_error(r: Result<Hjwzw, NovelError>) -> Result<HjwzwView, NovelErrorView> {
    match r {
        Ok(reader) => Ok(reader@),
        Err(e) => Err(e@),
    }
}

impl Hjwzw {
    /// A reader for the site that the page at `url` belongs to.
    pub fn new(url: &str) -> (out: Result<Hjwzw, NovelError>)
        ensures
            hjwzw_or_error(out) == hjwzw_reader(url@),
    {
        let base = match site_base(url) {
            Ok(base) => base,
            Err(e) => return Err(e),
        };
        let mut replacer: Vec<Replacement> = Vec::new();
        replacer.push(
            Replacement { pattern: String::from_str(""), replacement: String::from_str("") },
        );
        assert(replacement_views(replacer@) =~= hjwzw_patterns());
        match check_patterns(&replacer) {
            Err(e) => Err(e),
            Ok(_) => Ok(Hjwzw { base, replacer }),
        }
    }

    /// The site's name.
    pub fn to_string(&self) -> (out: String)
        ensures
            out@ == "黃金屋"@,
    {
        String::from_str("黃金屋")
    }

    /// Reads the book's name and author from its table of contents.
    pub fn get_book_info(&self, document: &str) -> (out: Result<Book, NovelError>)
        ensures
            book_or_error(out) == hjwzw_book(document@),
    {
        let name = match select_text(document, Selector::HjwzwTitle) {
            Ok(name) => name,
            Err(e) => return Err(e),
        };
        let author = match select_text(
            document,
            Selector::HjwzwAuthor,
        ) {
            Ok(author) => author,
            Err(e) => return Err(e),
        };
        Ok(Book { name, author: replace_text(author.as_str(), "作者 / ", "") })
    }

    /// Reads the URLs of the book's chapters from its table of contents, in
    /// their order.
    pub fn get_chapter_urls_sorted(&self, document: &str) -> (out: Result<Vec<String>, NovelError>)
        ensures
            texts_or_error(out) == selected_links(document@, "div#tbchapterlist a"@, self@.base),
    {
        select_links(document, Selector::HjwzwChapterLinks, self.base.as_str())
    }

    /// Reads the chapter that a page holds.
    pub fn get_chapter(&self, document: &str, order: &str) -> (out: Result<Chapter, NovelError>)
        ensures
            chapter_or_error(out) == hjwzw_chapter(document@, order@),
    {
        let title = match select_text(document, Selector::HjwzwHeading) {
            Ok(title) => title,
            Err(e) => return Err(e),
        };
        let text = match select_text_without(
            document,
            Selector::HjwzwAdvertisement,
            Selector::HjwzwText,
        ) {
            Ok(text) => text,
            Err(e) => return Err(e),
        };
        Ok(Chapter { order: String::from_str(order), title: trim_text(title.as_str()), text })
    }

    /// The page that continues a chapter's page: on this site, none.
    pub fn get_next_page(&self, document: &str) -> (out: Result<Option<String>, NovelError>)
        ensures
            out == Ok::<Option<String>, NovelError>(None),
    {
        Ok(None)
    }

    /// Cleans a chapter's text.
    pub fn process_chapter(&self, chapter: Chapter) -> (out: Chapter)
        ensures
            out.order == chapter.order,
            out.title == chapter.title,
            out.text@ == hjwzw_text(chapter.text@, self@.replacer),
    {
        let seps: Vec<char> = vec!['\n', '\r'];
        assert(seps@ =~= seq!['\n', '\r']);
        let lines = clean_lines(chapter.text.as_str(), &seps, 2);
        let text = apply_patterns(lines, &self.replacer);
        Chapter { order: chapter.order, title: chapter.title, text }
    }
}

} // verus!
