//! UU看書 <https://www.uukanshu.com/>

use vstd::prelude::*;
use crate::chapter::Book;
use crate::chapter::BookView;
use crate::chapter::Chapter;
use crate::chapter::ChapterView;
use crate::error::NovelError;
use crate::selector::Selector;
use crate::error::NovelErrorView;
use crate::extract::apply_patterns;
use crate::extract::book_or_error;
use crate::extract::chapter_or_error;
use crate::extract::check_patterns;
use crate::extract::clean_lines;
use crate::extract::clean_pieces;
use crate::extract::cleaned_lines;
use crate::extract::cleaned_pieces;
use crate::extract::first_fault;
use crate::extract::patterns_applied;
use crate::extract::replace_text;
use crate::extract::replacement_views;
use crate::extract::reversed;
use crate::extract::select_links;
use crate::extract::select_text;
use crate::extract::selected_links;
use crate::extract::selected_text;
use crate::extract::site_base;
use crate::extract::site_base_of;
use crate::extract::texts_or_error;
use crate::extract::trim_text;
use crate::extract::Replacement;
use crate::extract::ReplacementView;
use crate::lines::replaced;
use crate::lines::trimmed;

verus! {

/// What is replaced in a chapter's text: the site's advertisements for
/// itself, in both scripts.
pub open spec fn uukanshu_patterns() -> Seq<ReplacementView> {
    seq![
        ReplacementView { pattern: "(?s)如果喜歡.*，請把網址發給您的朋友。.*"@, replacement: ""@ },
        ReplacementView { pattern: "(?s)如果喜欢.*，请把网址发给您的朋友。.*"@, replacement: ""@ },
        ReplacementView {
            pattern: "[wｗ]{3}[．\\.][ｕu][ｕu][ｋk][ａa][ｎn][ｓs][ｈh][ｕu][．\\.][ｃc][ｏo][ｍm]"@,
            replacement: ""@,
        },
        ReplacementView { pattern: "[ｕuＵU]{2}看书[ ]*"@, replacement: ""@ },
        ReplacementView { pattern: "[ｕuＵU]{2}看書[ ]*"@, replacement: ""@ },
        ReplacementView { pattern: "請記住本書首發域名：。："@, replacement: ""@ },
        ReplacementView { pattern: "请记住本书首发域名：。："@, replacement: ""@ },
    ]
}

/// The reader for the site of the page at `url`.
pub open spec fn uukanshu_reader(url: Seq<char>) -> Result<UUkanshuView, NovelErrorView> {
    match site_base_of(url) {
        Err(e) => Err(e),
        Ok(base) => match first_fault(uukanshu_patterns()) {
            Some(m) => Err(NovelErrorView::RegexError(m)),
            None => Ok(UUkanshuView { base, replacer: uukanshu_patterns() }),
        },
    }
}

/// The book that a table of contents names.
pub open spec fn uukanshu_book(document: Seq<char>) -> Result<BookView, NovelErrorView> {
    match selected_text(document, "dd.jieshao_content > h1 > a"@) {
        Err(e) => Err(e),
        Ok(name) => match selected_text(document, "dd.jieshao_content > h2 > a"@) {
            Err(e) => Err(e),
            Ok(author) => Ok(
                BookView {
                    name: replaced(replaced(name, "最新章節"@, ""@), "最新章节"@, ""@),
                    author,
                },
            ),
        },
    }
}

/// The URLs of a book's chapters, first chapter first: the table of
/// contents lists them last chapter first.
pub open spec fn uukanshu_chapter_urls(document: Seq<char>, base: Seq<char>) -> Result<
    Seq<Seq<char>>,
    NovelErrorView,
> {
    match selected_links(document, "ul#chapterList a"@, base) {
        Err(e) => Err(e),
        Ok(urls) => Ok(urls.reverse()),
    }
}

/// The chapter that a page holds, under the given order key.
pub open spec fn uukanshu_chapter(document: Seq<char>, order: Seq<char>) -> Result<
    ChapterView,
    NovelErrorView,
> {
    match selected_text(document, "h1#timu"@) {
        Err(e) => Err(e),
        Ok(title) => match selected_text(document, "div#contentbox.uu_cont"@) {
            Err(e) => Err(e),
            Ok(text) => Ok(ChapterView { order, title: trimmed(title), text }),
        },
    }
}

/// A chapter's text, cleaned: the replacements, then its lines, then the
/// lines cut once more where two spaces stand.
pub open spec fn uukanshu_text(text: Seq<char>, replacer: Seq<ReplacementView>) -> Seq<char> {
    cleaned_pieces(
        cleaned_lines(patterns_applied(text, replacer), seq!['\n', '\u{3000}', '\u{a0}', '\r'], 0),
        "  "@,
    )
}

/// The reader as contracts see it.
pub struct UUkanshuView {
    pub base: Seq<char>,
    pub replacer: Seq<ReplacementView>,
}

/// The site's reader.
pub struct UUkanshu {
    base: String,
    replacer: Vec<Replacement>,
}

impl View for UUkanshu {
    type V = UUkanshuView;

    closed spec fn view(&self) -> UUkanshuView {
        UUkanshuView { base: self.base@, replacer: replacement_views(self.replacer@) }
    }
}

/// A reader or an error, as contracts see them.
pub open spec fn uukanshu_or_error(r: Result<UUkanshu, NovelError>) -> Result<
    UUkanshuView,
    NovelErrorView,
> {
    match r {
        Ok(reader) => Ok(reader@),
        Err(e) => Err(e@),
    }
}

/// A pattern whose matches are taken out.
fn removal(pattern: &str) -> (out: Replacement)
    ensures
        out@ == (ReplacementView { pattern: pattern@, replacement: ""@ }),
{
    Replacement { pattern: String::from_str(pattern), replacement: String::from_str("") }
}

impl UUkanshu {
    /// A reader for the site that the page at `url` belongs to.
    pub fn new(url: &str) -> (out: Result<UUkanshu, NovelError>)
        ensures
            uukanshu_or_error(out) == uukanshu_reader(url@),
    {
        let base = match site_base(url) {
            Ok(base) => base,
            Err(e) => return Err(e),
        };
        let mut replacer: Vec<Replacement> = Vec::new();
        replacer.push(removal("(?s)如果喜歡.*，請把網址發給您的朋友。.*"));
        replacer.push(removal("(?s)如果喜欢.*，请把网址发给您的朋友。.*"));
        replacer.push(
            removal("[wｗ]{3}[．\\.][ｕu][ｕu][ｋk][ａa][ｎn][ｓs][ｈh][ｕu][．\\.][ｃc][ｏo][ｍm]"),
        );
        replacer.push(removal("[ｕuＵU]{2}看书[ ]*"));
        replacer.push(removal("[ｕuＵU]{2}看書[ ]*"));
        replacer.push(removal("請記住本書首發域名：。："));
        replacer.push(removal("请记住本书首发域名：。："));
        assert(replacement_views(replacer@) =~= uukanshu_patterns());
        match check_patterns(&replacer) {
            Err(e) => Err(e),
            Ok(_) => Ok(UUkanshu { base, replacer }),
        }
    }

    /// The site's name.
    pub fn to_string(&self) -> (out: String)
        ensures
            out@ == "UU看書"@,
    {
        String::from_str("UU看書")
    }

    /// Reads the book's name and author from its table of contents.
    pub fn get_book_info(&self, document: &str) -> (out: Result<Book, NovelError>)
        ensures
            book_or_error(out) == uukanshu_book(document@),
    {
        let name = match select_text(document, Selector::UUkanshuTitle) {
            Ok(name) => name,
            Err(e) => return Err(e),
        };
        let author = match select_text(document, Selector::UUkanshuAuthor) {
            Ok(author) => author,
            Err(e) => return Err(e),
        };
        let shorter = replace_text(name.as_str(), "最新章節", "");
        Ok(Book { name: replace_text(shorter.as_str(), "最新章节", ""), author })
    }

    /// Reads the URLs of the book's chapters from its table of contents,
    /// first chapter first.
    pub fn get_chapter_urls_sorted(&self, document: &str) -> (out: Result<Vec<String>, NovelError>)
        ensures
            texts_or_error(out) == uukanshu_chapter_urls(document@, self@.base),
    {
        match select_links(document, Selector::UUkanshuChapterLinks, self.base.as_str()) {
            Err(e) => Err(e),
            Ok(urls) => Ok(reversed(urls)),
        }
    }

    /// Reads the chapter that a page holds.
    pub fn get_chapter(&self, document: &str, order: &str) -> (out: Result<Chapter, NovelError>)
        ensures
            chapter_or_error(out) == uukanshu_chapter(document@, order@),
    {
        let title = match select_text(document, Selector::UUkanshuHeading) {
            Ok(title) => title,
            Err(e) => return Err(e),
        };
        let text = match select_text(document, Selector::UUkanshuText) {
            Ok(text) => text,
            Err(e) => return Err(e),
        };
        Ok(Chapter { order: String::from_str(order), title: trim_text(title.as_str()), text })
    }

    /// The page that continues a chapter's page: on this site, none.
    pub fn get_next_page(&self, document: &str) -> (out: Result<Option<String>, NovelError>)
        ensures
            out == Ok::<Option<String>, NovelError>(None),
    {
        Ok(None)
    }

    /// Cleans a chapter's text.
    pub fn process_chapter(&self, chapter: Chapter) -> (out: Chapter)
        ensures
            out.order == chapter.order,
            out.title == chapter.title,
            out.text@ == uukanshu_text(chapter.text@, self@.replacer),
    {
        let replaced_text = apply_patterns(chapter.text, &self.replacer);
        let seps: Vec<char> = vec!['\n', '\u{3000}', '\u{a0}', '\r'];
        assert(seps@ =~= seq!['\n', '\u{3000}', '\u{a0}', '\r']);
        let lines = clean_lines(replaced_text.as_str(), &seps, 0);
        let text = clean_pieces(lines.as_str(), "  ");
        Chapter { order: chapter.order, title: chapter.title, text }
    }
}

} // verus!
