//! 小說狂人 <https://czbooks.net/>

use vstd::prelude::*;
use crate::chapter::Book;
use crate::chapter::BookView;
use crate::chapter::Chapter;
use crate::chapter::ChapterView;
use crate::dom::dom_attrs;
use crate::error::NovelError;
use crate::selector::Selector;
use crate::error::NovelErrorView;
use crate::extract::apply_patterns;
use crate::extract::book_or_error;
use crate::extract::chapter_or_error;
use crate::extract::check_patterns;
use crate::extract::first_fault;
use crate::extract::href;
use crate::extract::patterns_applied;
use crate::extract::remove_from_text;
use crate::extract::replacement_views;
use crate::extract::select_targets;
use crate::extract::select_text;
use crate::extract::selected_text;
use crate::extract::texts_or_error;
use crate::extract::trim_text;
use crate::extract::Replacement;
use crate::extract::ReplacementView;
use crate::lines::trimmed;
use crate::lines::without_chars;
use crate::link::parse_url;
use crate::link::url_parsed;
use crate::text::text_list;
use crate::text::text_options;

verus! {

/// What is replaced in a chapter's text: wide spaces go, and a blank line
/// becomes a line feed.
pub open spec fn czbooks_patterns() -> Seq<ReplacementView> {
    seq![
        ReplacementView { pattern: "\u{3000}"@, replacement: ""@ },
        ReplacementView { pattern: "\n\n"@, replacement: "\n"@ },
    ]
}

/// The book that a table of contents names: the title without its angle
/// quotes, and the author.
pub open spec fn czbooks_book(document: Seq<char>) -> Result<BookView, NovelErrorView> {
    match selected_text(document, "span.title"@) {
        Err(e) => Err(e),
        Ok(name) => match selected_text(document, "span.author > a"@) {
            Err(e) => Err(e),
            Ok(author) => Ok(BookView { name: without_chars(name, seq!['《', '》']), author }),
        },
    }
}

/// The links of a table of contents, which lack their scheme, as URLs: the
/// first link without a target, or whose target is no URL, fails the whole.
pub open spec fn czbooks_links(targets: Seq<Option<Seq<char>>>) -> Result<
    Seq<Seq<char>>,
    NovelErrorView,
>
    decreases targets.len(),
{
    if targets.len() == 0 {
        Ok(Seq::empty())
    } else {
        match czbooks_links(targets.drop_last()) {
            Err(e) => Err(e),
            Ok(done) => match targets.last() {
                None => Err(NovelErrorView::NotFound(href())),
                Some(target) => match url_parsed("https:"@ + target) {
                    Ok(url) => Ok(done.push(url)),
                    Err(m) => Err(NovelErrorView::ParseError(m)),
                },
            },
        }
    }
}

/// Once a link fails, the whole fails with its error, whatever follows.
pub proof fn lemma_czbooks_links_fails(targets: Seq<Option<Seq<char>>>, n: int)
    requires
        0 <= n <= targets.len(),
        czbooks_links(targets.take(n)) is Err,
    ensures
        czbooks_links(targets) == czbooks_links(targets.take(n)),
    decreases targets.len() - n,
{
    if n == targets.len() {
        assert(targets.take(n) =~= targets);
    } else {
        assert(targets.take(n + 1).drop_last() =~= targets.take(n));
        lemma_czbooks_links_fails(targets, n + 1);
    }
}

/// The URLs of a book's chapters, in the order of its table of contents.
pub open spec fn czbooks_chapter_urls(document: Seq<char>) -> Result<
    Seq<Seq<char>>,
    NovelErrorView,
> {
    match dom_attrs(document, "ul.nav.chapter-list > li > a"@, href()) {
        Err(m) => Err(NovelErrorView::VisdomError(m)),
        Ok(targets) => czbooks_links(targets),
    }
}

/// The chapter that a page holds, under the given order key.
pub open spec fn czbooks_chapter(document: Seq<char>, order: Seq<char>) -> Result<
    ChapterView,
    NovelErrorView,
> {
    match selected_text(document, "div.name"@) {
        Err(e) => Err(e),
        Ok(title) => match selected_text(document, "div.content"@) {
            Err(e) => Err(e),
            Ok(text) => Ok(ChapterView { order, title: trimmed(title), text }),
        },
    }
}

/// The site's reader.
pub struct Czbooks {
    replacer: Vec<Replacement>,
}

impl Czbooks {
    /// What the reader replaces in a chapter's text.
    pub closed spec fn replacer(&self) -> Seq<ReplacementView> {
        replacement_views(self.replacer@)
    }

    /// A reader, once its patterns are known to compile.
    pub fn new() -> (out: Result<Czbooks, NovelError>)
        ensures
            match first_fault(czbooks_patterns()) {
                Some(m) => out is Err && out->Err_0@ == NovelErrorView::RegexError(m),
                None => out is Ok && out->Ok_0.replacer() == czbooks_patterns(),
            },
    {
        let mut replacer: Vec<Replacement> = Vec::new();
        replacer.push(
            Replacement {
                pattern: String::from_str("\u{3000}"),
                replacement: String::from_str(""),
            },
        );
        replacer.push(
            Replacement { pattern: String::from_str("\n\n"), replacement: String::from_str("\n") },
        );
        assert(replacement_views(replacer@) =~= czbooks_patterns());
        match check_patterns(&replacer) {
            Err(e) => Err(e),
            Ok(_) => Ok(Czbooks { replacer }),
        }
    }

    /// The site's name.
    pub fn to_string(&self) -> (out: String)
        ensures
            out@ == "小說狂人"@,
    {
        String::from_str("小說狂人")
    }

    /// Reads the book's name and author from its table of contents.
    pub fn get_book_info(&self, document: &str) -> (out: Result<Book, NovelError>)
        ensures
            book_or_error(out) == czbooks_book(document@),
    {
        let name = match select_text(document, Selector::CzbooksTitle) {
            Ok(name) => name,
            Err(e) => return Err(e),
        };
        let author = match select_text(document, Selector::CzbooksAuthor) {
            Ok(author) => author,
            Err(e) => return Err(e),
        };
        let quotes: Vec<char> = vec!['《', '》'];
        assert(quotes@ =~= seq!['《', '》']);
        Ok(Book { name: remove_from_text(name.as_str(), &quotes), author })
    }

    /// Reads the URLs of the book's chapters from its table of contents, in
    /// their order.
    pub fn get_chapter_urls_sorted(&self, document: &str) -> (out: Result<Vec<String>, NovelError>)
        ensures
            texts_or_error(out) == czbooks_chapter_urls(document@),
    {
        let targets = match select_targets(document, Selector::CzbooksChapterLinks) {
            Ok(targets) => targets,
            Err(e) => return Err(e),
        };
        let mut out: Vec<String> = Vec::new();
        let mut i: usize = 0;
        let ghost all = text_options(targets@);
        assert(all.take(0) =~= Seq::<Option<Seq<char>>>::empty());
        assert(text_list(out@) =~= Seq::<Seq<char>>::empty());
        while i < targets.len()
            invariant
                0 <= i <= targets.len(),
                all == text_options(targets@),
                czbooks_chapter_urls(document@) == czbooks_links(all),
                czbooks_links(all.take(i as int)) == Ok::<Seq<Seq<char>>, NovelErrorView>(
                    text_list(out@),
                ),
            decreases targets.len() - i,
        {
            proof {
                let longer = all.take(i + 1);
                assert(longer.drop_last() =~= all.take(i as int));
                assert(longer.last() == all[i as int]);
            }
            let ghost before = text_list(out@);
            match &targets[i] {
                None => {
                    proof {
                        lemma_czbooks_links_fails(all, i + 1);
                    }
                    return Err(NovelError::NotFound(String::from_str("href")));
                },
                Some(target) => {
                    let mut full = String::from_str("https:");
                    full.append(target.as_str());
                    match parse_url(full.as_str()) {
                        Ok(url) => {
                            out.push(url);
                            assert(text_list(out@) =~= before.push(url@));
                        },
                        Err(m) => {
                            proof {
                                lemma_czbooks_links_fails(all, i + 1);
                            }
                            return Err(NovelError::ParseError(m));
                        },
                    }
                },
            }
            i += 1;
        }
        assert(all.take(all.len() as int) =~= all);
        Ok(out)
    }

    /// Reads the chapter that a page holds.
    pub fn get_chapter(&self, document: &str, order: &str) -> (out: Result<Chapter, NovelError>)
        ensures
            chapter_or_error(out) == czbooks_chapter(document@, order@),
    {
        let title = match select_text(document, Selector::CzbooksHeading) {
            Ok(title) => title,
            Err(e) => return Err(e),
        };
        let text = match select_text(document, Selector::CzbooksText) {
            Ok(text) => text,
            Err(e) => return Err(e),
        };
        Ok(Chapter { order: String::from_str(order), title: trim_text(title.as_str()), text })
    }

    /// The page that continues a chapter's page: on this site, none.
    pub fn get_next_page(&self, document: &str) -> (out: Result<Option<String>, NovelError>)
        ensures
            out == Ok::<Option<String>, NovelError>(None),
    {
        Ok(None)
    }

    /// Cleans a chapter's text.
    pub fn process_chapter(&self, chapter: Chapter) -> (out: Chapter)
        ensures
            out.order == chapter.order,
            out.title == chapter.title,
            out.text@ == patterns_applied(chapter.text@, self.replacer()),
    {
        let text = apply_patterns(chapter.text, &self.replacer);
        Chapter { order: chapter.order, title: chapter.title, text }
    }
}

} // verus!
