//! 全本同人 <https://www.qbtr.cc/>

use vstd::prelude::*;
use crate::chapter::Book;
use crate::chapter::BookView;
use crate::chapter::Chapter;
use crate::chapter::ChapterView;
use crate::dom::dom_texts;
use crate::error::NovelError;
use crate::selector::Selector;
use crate::error::NovelErrorView;
use crate::extract::apply_patterns;
use crate::extract::book_or_error;
use crate::extract::chapter_or_error;
use crate::extract::check_patterns;
use crate::extract::clean_lines;
use crate::extract::cleaned_lines;
use crate::extract::first_fault;
use crate::extract::patterns_applied;
use crate::extract::replace_text;
use crate::extract::replacement_views;
use crate::extract::select_each_text;
use crate::extract::select_links;
use crate::extract::select_text;
use crate::extract::selected_links;
use crate::extract::selected_text;
use crate::extract::site_base;
use crate::extract::site_base_of;
use crate::extract::texts_or_error;
use crate::extract::trim_and_join;
use crate::extract::trim_text;
use crate::extract::trimmed_and_joined;
use crate::extract::Replacement;
use crate::extract::ReplacementView;
use crate::fetch::Encoding;
use crate::lines::replaced;
use crate::lines::trimmed;

verus! {

/// What is replaced in a chapter's text: on this site, nothing.
pub open spec fn qbtr_patterns() -> Seq<ReplacementView> {
    Seq::empty()
}

/// The reader for the site of the page at `url`.
pub open spec fn qbtr_reader(url: Seq<char>) -> Result<QbtrView, NovelErrorView> {
    match site_base_of(url) {
        Err(e) => Err(e),
        Ok(base) => match first_fault(qbtr_patterns()) {
            Some(m) => Err(NovelErrorView::RegexError(m)),
            None => Ok(QbtrView { base, replacer: qbtr_patterns() }),
        },
    }
}

/// The book that a table of contents names.
pub open spec fn qbtr_book(document: Seq<char>) -> Result<BookView, NovelErrorView> {
    match selected_text(document, "div.infos > h1"@) {
        Err(e) => Err(e),
        Ok(name) => match selected_text(document, "div.date > span"@) {
            Err(e) => Err(e),
            Ok(author) => Ok(BookView { name, author: replaced(author, "作者："@, ""@) }),
        },
    }
}

/// The chapter that a page holds, under the given order key: its heading,
/// and its paragraphs, each trimmed, one to the line.
pub open spec fn qbtr_chapter(document: Seq<char>, order: Seq<char>) -> Result<
    ChapterView,
    NovelErrorView,
> {
    match selected_text(document, "div.read_chapterName.tc > h1"@) {
        Err(e) => Err(e),
        Ok(title) => match dom_texts(document, "div.read_chapterDetail > p"@) {
            Err(m) => Err(NovelErrorView::VisdomError(m)),
            Ok(paragraphs) => Ok(
                ChapterView { order, title: trimmed(title), text: trimmed_and_joined(paragraphs) },
            ),
        },
    }
}

/// A chapter's text, cleaned: the replacements, then its lines without the
/// first two.
pub open spec fn qbtr_text(text: Seq<char>, replacer: Seq<ReplacementView>) -> Seq<char> {
    cleaned_lines(patterns_applied(text, replacer), seq!['\n'], 2)
}

/// The reader as contracts see it.
pub struct QbtrView {
    pub base: Seq<char>,
    pub replacer: Seq<ReplacementView>,
}

/// The site's reader.
pub struct Qbtr {
    base: String,
    replacer: Vec<Replacement>,
}

impl View for Qbtr {
    type V = QbtrView;

    closed spec fn view(&self) -> QbtrView {
        QbtrView { base: self.base@, replacer: replacement_views(self.replacer@) }
    }
}

/// A reader or an error, as contracts see them.
pub open spec fn qbtr_or_error(r: Result<Qbtr, NovelError>) -> Result<QbtrView, NovelErrorView> {
    match r {
        Ok(reader) => Ok(reader@),
        Err(e) => Err(e@),
    }
}

impl Qbtr {
    /// A reader for the site that the page at `url` belongs to.
    pub fn new(url: &str) -> (out: Result<Qbtr, NovelError>)
        ensures
            qbtr_or_error(out) == qbtr_reader(url@),
    {
        let base = match site_base(url) {
            Ok(base) => base,
            Err(e) => return Err(e),
        };
        let replacer: Vec<Replacement> = Vec::new();
        assert(replacement_views(replacer@) =~= qbtr_patterns());
        match check_patterns(&replacer) {
            Err(e) => Err(e),
            Ok(_) => Ok(Qbtr { base, replacer }),
        }
    }

    /// The site's name.
    pub fn to_string(&self) -> (out: String)
        ensures
            out@ == "全本同人"@,
    {
        String::from_str("全本同人")
    }

    /// The encoding of the site's pages.
    pub fn need_encoding(&self) -> (out: Option<Encoding>)
        ensures
            out == Some(Encoding::Gbk),
    {
        Some(Encoding::Gbk)
    }

    /// Reads the book's name and author from its table of contents.
    pub fn get_book_info(&self, document: &str) -> (out: Result<Book, NovelError>)
        ensures
            book_or_error(out) == qbtr_book(document@),
    {
        let name = match select_text(document, Selector::QbtrTitle) {
            Ok(name) => name,
            Err(e) => return Err(e),
        };
        let author = match select_text(document, Selector::QbtrAuthor) {
            Ok(author) => author,
            Err(e) => return Err(e),
        };
        Ok(Book { name, author: replace_text(author.as_str(), "作者：", "") })
    }

    /// Reads the URLs of the book's chapters from its table of contents, in
    /// their order.
    pub fn get_chapter_urls_sorted(&self, document: &str) -> (out: Result<Vec<String>, NovelError>)
        ensures
            texts_or_error(out) == selected_links(
                document@,
                "div.book_list.clearfix > ul > li > a"@,
                self@.base,
            ),
    {
        select_links(document, Selector::QbtrChapterLinks, self.base.as_str())
    }

    /// Reads the chapter that a page holds.
    pub fn get_chapter(&self, document: &str, order: &str) -> (out: Result<Chapter, NovelError>)
        ensures
            chapter_or_error(out) == qbtr_chapter(document@, order@),
    {
        let title = match select_text(document, Selector::QbtrHeading) {
            Ok(title) => title,
            Err(e) => return Err(e),
        };
        let paragraphs = match select_each_text(document, Selector::QbtrParagraphs) {
            Ok(paragraphs) => paragraphs,
            Err(e) => return Err(e),
        };
        Ok(
            Chapter {
                order: String::from_str(order),
                title: trim_text(title.as_str()),
                text: trim_and_join(&paragraphs),
            },
        )
    }

    /// The page that continues a chapter's page: on this site, none.
    pub fn get_next_page(&self, document: &str) -> (out: Result<Option<String>, NovelError>)
        ensures
            out == Ok::<Option<String>, NovelError>(None),
    {
        Ok(None)
    }

    /// Cleans a chapter's text.
    pub fn process_chapter(&self, chapter: Chapter) -> (out: Chapter)
        ensures
            out.order == chapter.order,
            out.title == chapter.title,
            out.text@ == qbtr_text(chapter.text@, self@.replacer),
    {
        let replaced_text = apply_patterns(chapter.text, &self.replacer);
        let seps: Vec<char> = vec!['\n'];
        assert(seps@ =~= seq!['\n']);
        let text = clean_lines(replaced_text.as_str(), &seps, 2);
        Chapter { order: chapter.order, title: chapter.title, text }
    }
}

} // verus!
