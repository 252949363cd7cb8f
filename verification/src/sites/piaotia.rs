//! 飄天 <https://www.piaotia.com/>

use vstd::prelude::*;
use crate::chapter::Book;
use crate::chapter::BookView;
use crate::chapter::Chapter;
use crate::chapter::ChapterView;
use crate::error::NovelError;
use crate::selector::Selector;
use crate::error::NovelErrorView;
use crate::extract::apply_patterns;
use crate::extract::book_or_error;
use crate::extract::chapter_or_error;
use crate::extract::check_patterns;
use crate::extract::clean_lines;
use crate::extract::cleaned_lines;
use crate::extract::first_fault;
use crate::extract::page_url;
use crate::extract::page_url_of;
use crate::extract::patterns_applied;
use crate::extract::replace_text;
use crate::extract::replacement_views;
use crate::extract::select_attr;
use crate::extract::select_links;
use crate::extract::select_text;
use crate::extract::selected_attr;
use crate::extract::selected_links;
use crate::extract::selected_text;
use crate::extract::texts_or_error;
use crate::extract::trim_text;
use crate::extract::Replacement;
use crate::extract::ReplacementView;
use crate::fetch::Encoding;
use crate::lines::replaced;
use crate::lines::trimmed;

verus! {

/// What is replaced in a chapter's text: all from the keyboard hint on, and
/// all up to the link back to the book's page.
pub open spec fn piaotia_patterns() -> Seq<ReplacementView> {
    seq![
        ReplacementView { pattern: "(?s)（快捷键 ←）.*"@, replacement: ""@ },
        ReplacementView { pattern: "(?s).*返回书页"@, replacement: ""@ },
    ]
}

/// The reader for the book whose table of contents is at `url`.
pub open spec fn piaotia_reader(url: Seq<char>) -> Result<PiaotiaView, NovelErrorView> {
    match page_url_of(url) {
        Err(e) => Err(e),
        Ok(base) => match first_fault(piaotia_patterns()) {
            Some(m) => Err(NovelErrorView::RegexError(m)),
            None => Ok(PiaotiaView { base, replacer: piaotia_patterns() }),
        },
    }
}

/// The book that a table of contents names.
pub open spec fn piaotia_book(document: Seq<char>) -> Result<BookView, NovelErrorView> {
    match selected_text(document, "div.title h1"@) {
        Err(e) => Err(e),
        Ok(name) => match selected_attr(document, "meta[name=author]"@, "content"@) {
            Err(e) => Err(e),
            Ok(None) => Err(NovelErrorView::NotFound("author content"@)),
            Ok(Some(author)) => Ok(BookView { name: replaced(name, "最新章节"@, ""@), author }),
        },
    }
}

/// The chapter that a page holds, under the given order key: its heading
/// and the text of the whole page.
pub open spec fn piaotia_chapter(document: Seq<char>, order: Seq<char>) -> Result<
    ChapterView,
    NovelErrorView,
> {
    match selected_text(document, "H1"@) {
        Err(e) => Err(e),
        Ok(title) => match selected_text(document, "html"@) {
            Err(e) => Err(e),
            Ok(text) => Ok(
                ChapterView { order, title: replaced(trimmed(title), "射手凶猛 "@, ""@), text },
            ),
        },
    }
}

/// A chapter's text, cleaned: the replacements, then its lines.
pub open spec fn piaotia_text(text: Seq<char>, replacer: Seq<ReplacementView>) -> Seq<char> {
    cleaned_lines(patterns_applied(text, replacer), seq!['\n', '\u{a0}'], 0)
}

/// The reader as contracts see it.
pub struct PiaotiaView {
    pub base: Seq<char>,
    pub replacer: Seq<ReplacementView>,
}

/// The site's reader.
pub struct Piaotia {
    base: String,
    replacer: Vec<Replacement>,
}

impl View for Piaotia {
    type V = PiaotiaView;

    closed spec fn view(&self) -> PiaotiaView {
        PiaotiaView { base: self.base@, replacer: replacement_views(self.replacer@) }
    }
}

/// A reader or an error, as contracts see them.
pub open spec fn piaotia_or_error(r: Result<Piaotia, NovelError>) -> Result<
    PiaotiaView,
    NovelErrorView,
> {
    match r {
        Ok(reader) => Ok(reader@),
        Err(e) => Err(e@),
    }
}

impl Piaotia {
    /// A reader for the book whose table of contents is at `url`.
    pub fn new(url: &str) -> (out: Result<Piaotia, NovelError>)
        ensures
            piaotia_or_error(out) == piaotia_reader(url@),
    {
        let base = match page_url(url) {
            Ok(base) => base,
            Err(e) => return Err(e),
        };
        let mut replacer: Vec<Replacement> = Vec::new();
        replacer.push(
            Replacement {
                pattern: String::from_str("(?s)（快捷键 ←）.*"),
                replacement: String::from_str(""),
            },
        );
        replacer.push(
            Replacement {
                pattern: String::from_str("(?s).*返回书页"),
                replacement: String::from_str(""),
            },
        );
        assert(replacement_views(replacer@) =~= piaotia_patterns());
        match check_patterns(&replacer) {
            Err(e) => Err(e),
            Ok(_) => Ok(Piaotia { base, replacer }),
        }
    }

    /// The site's name.
    pub fn to_string(&self) -> (out: String)
        ensures
            out@ == "飄天"@,
    {
        String::from_str("飄天")
    }

    /// The encoding of the site's pages.
    pub fn need_encoding(&self) -> (out: Option<Encoding>)
        ensures
            out == Some(Encoding::Gbk),
    {
        Some(Encoding::Gbk)
    }

    /// Reads the book's name and author from its table of contents.
    pub fn get_book_info(&self, document: &str) -> (out: Result<Book, NovelError>)
        ensures
            book_or_error(out) == piaotia_book(document@),
    {
        let name = match select_text(document, Selector::PiaotiaTitle) {
            Ok(name) => name,
            Err(e) => return Err(e),
        };
        let author = match select_attr(document, Selector::PiaotiaAuthor, "content") {
            Err(e) => return Err(e),
            Ok(None) => return Err(NovelError::NotFound(String::from_str("author content"))),
            Ok(Some(author)) => author,
        };
        Ok(Book { name: replace_text(name.as_str(), "最新章节", ""), author })
    }

    /// Reads the URLs of the book's chapters from its table of contents, in
    /// their order.
    pub fn get_chapter_urls_sorted(&self, document: &str) -> (out: Result<Vec<String>, NovelError>)
        ensures
            texts_or_error(out) == selected_links(document@, "div.centent li a"@, self@.base),
    {
        select_links(document, Selector::PiaotiaChapterLinks, self.base.as_str())
    }

    /// Reads the chapter that a page holds.
    pub fn get_chapter(&self, document: &str, order: &str) -> (out: Result<Chapter, NovelError>)
        ensures
            chapter_or_error(out) == piaotia_chapter(document@, order@),
    {
        let heading = match select_text(document, Selector::PiaotiaHeading) {
            Ok(heading) => heading,
            Err(e) => return Err(e),
        };
        let text = match select_text(document, Selector::PiaotiaPage) {
            Ok(text) => text,
            Err(e) => return Err(e),
        };
        let title = replace_text(trim_text(heading.as_str()).as_str(), "射手凶猛 ", "");
        Ok(Chapter { order: String::from_str(order), title, text })
    }

    /// The page that continues a chapter's page: on this site, none.
    pub fn get_next_page(&self, document: &str) -> (out: Result<Option<String>, NovelError>)
        ensures
            out == Ok::<Option<String>, NovelError>(None),
    {
        Ok(None)
    }

    /// Cleans a chapter's text.
    pub fn process_chapter(&self, chapter: Chapter) -> (out: Chapter)
        ensures
            out.order == chapter.order,
            out.title == chapter.title,
            out.text@ == piaotia_text(chapter.text@, self@.replacer),
    {
        let replaced_text = apply_patterns(chapter.text, &self.replacer);
        let seps: Vec<char> = vec!['\n', '\u{a0}'];
        assert(seps@ =~= seq!['\n', '\u{a0}']);
        let text = clean_lines(replaced_text.as_str(), &seps, 0);
        Chapter { order: chapter.order, title: chapter.title, text }
    }
}

} // verus!
