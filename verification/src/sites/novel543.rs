//! 稷下書院 <https://www.novel543.com/>

use vstd::prelude::*;
use crate::chapter::Book;
use crate::chapter::BookView;
use crate::chapter::Chapter;
use crate::chapter::ChapterView;
use crate::error::NovelError;
use crate::selector::Selector;
use crate::error::NovelErrorView;
use crate::extract::book_or_error;
use crate::extract::chapter_or_error;
use crate::extract::href;
use crate::extract::line_feed;
use crate::extract::option_or_error;
use crate::extract::replace_text;
use crate::extract::select_attr;
use crate::extract::select_links;
use crate::extract::select_text;
use crate::extract::selected_attr;
use crate::extract::selected_links;
use crate::extract::selected_text;
use crate::extract::site_base;
use crate::extract::site_base_of;
use crate::extract::texts_or_error;
use crate::extract::trim_text;
use crate::lines::contains;
use crate::lines::join_from;
use crate::lines::joined;
use crate::lines::occurs_in;
use crate::lines::remove_chars;
use crate::lines::replaced;
use crate::lines::rows;
use crate::lines::split_after;
use crate::lines::split_inclusive;
use crate::lines::trim;
use crate::lines::trimmed;
use crate::lines::without_chars;
use crate::link::join_url;
use crate::link::parse_url;
use crate::link::relative_url;
use crate::link::url_joined;
use crate::link::url_parsed;
use crate::link::url_relative;
use crate::text::chars_of;
use crate::text::string_of;

verus! {

/// The book that a table of contents names.
pub open spec fn novel543_book(document: Seq<char>) -> Result<BookView, NovelErrorView> {
    match selected_text(document, "h1.title.is-2"@) {
        Err(e) => Err(e),
        Ok(name) => match selected_text(document, "h2.title.is-4"@) {
            Err(e) => Err(e),
            Ok(author) => Ok(
                BookView {
                    name: replaced(name, " 章節列表"@, ""@),
                    author: replaced(author, "作者 / "@, ""@),
                },
            ),
        },
    }
}

/// The chapter that a page holds, under the given order key.
pub open spec fn novel543_chapter(document: Seq<char>, order: Seq<char>) -> Result<
    ChapterView,
    NovelErrorView,
> {
    match selected_text(document, "#chapterWarp > div.chapter-content.px-3 > h1"@) {
        Err(e) => Err(e),
        Ok(title) => match selected_text(
            document,
            "#chapterWarp > div.chapter-content.px-3 > div"@,
        ) {
            Err(e) => Err(e),
            Ok(text) => Ok(ChapterView { order, title: trimmed(title), text }),
        },
    }
}

/// The page that continues a chapter's page. The page names itself and the
/// page that follows it; that page continues the chapter where its target
/// holds this page's own path, taken relative to the site's base and
/// without its extension.
pub open spec fn novel543_next_page(document: Seq<char>, base: Seq<char>) -> Result<
    Option<Seq<char>>,
    NovelErrorView,
> {
    match selected_attr(document, "head > link:nth-last-of-type(1)"@, href()) {
        Err(e) => Err(e),
        Ok(None) => Err(NovelErrorView::NotFound("curr_page href"@)),
        Ok(Some(named)) => match url_parsed(named) {
            Err(m) => Err(NovelErrorView::ParseError(m)),
            Ok(curr_page) => match selected_attr(
                document,
                "#read > div > div.warp.my-5.foot-nav > a:nth-child(5)"@,
                href(),
            ) {
                Err(e) => Err(e),
                Ok(None) => Err(NovelErrorView::NotFound("next_page href"@)),
                Ok(Some(next_page)) => match url_relative(base, curr_page) {
                    Err(m) => Err(NovelErrorView::ParseError(m)),
                    Ok(None) => Err(NovelErrorView::NotFound("curr_page relative"@)),
                    Ok(Some(relative)) => if occurs_in(
                        next_page,
                        replaced(relative, ".html"@, ""@),
                    ) {
                        match url_joined(base, next_page) {
                            Ok(url) => Ok(Some(url)),
                            Err(m) => Err(NovelErrorView::ParseError(m)),
                        }
                    } else {
                        Ok(None)
                    },
                },
            },
        },
    }
}

/// The sentences of a text: cut behind every full stop, trimmed, without
/// the stray character that the site strews in, the empty ones left out.
pub open spec fn sentences(text: Seq<char>) -> Seq<Seq<char>> {
    split_after(text, '。').map_values(|p: Seq<char>| without_chars(trimmed(p), seq!['㱕'])).filter(
        |p: Seq<char>| p.len() > 0,
    )
}

/// A chapter's text, cleaned: one sentence to the line.
pub open spec fn novel543_text(text: Seq<char>) -> Seq<char> {
    joined(sentences(trimmed(text)), line_feed())
}

/// The site's reader.
pub struct Novel543 {
    base: String,
}

impl View for Novel543 {
    type V = Seq<char>;

    closed spec fn view(&self) -> Seq<char> {
        self.base@
    }
}

/// A reader or an error, as contracts see them.
pub open spec fn novel543_or_error(r: Result<Novel543, NovelError>) -> Result<
    Seq<char>,
    NovelErrorView,
> {
    match r {
        Ok(reader) => Ok(reader@),
        Err(e) => Err(e@),
    }
}

impl Novel543 {
    /// A reader for the site that the page at `url` belongs to; its view is
    /// the site's base.
    pub fn new(url: &str) -> (out: Result<Novel543, NovelError>)
        ensures
            novel543_or_error(out) == site_base_of(url@),
    {
        match site_base(url) {
            Ok(base) => Ok(Novel543 { base }),
            Err(e) => Err(e),
        }
    }

    /// The site's name.
    pub fn to_string(&self) -> (out: String)
        ensures
            out@ == "稷下書院"@,
    {
        String::from_str("稷下書院")
    }

    /// Reads the book's name and author from its table of contents.
    pub fn get_book_info(&self, document: &str) -> (out: Result<Book, NovelError>)
        ensures
            book_or_error(out) == novel543_book(document@),
    {
        let name = match select_text(document, Selector::Novel543Title) {
            Ok(name) => name,
            Err(e) => return Err(e),
        };
        let author = match select_text(document, Selector::Novel543Author) {
            Ok(author) => author,
            Err(e) => return Err(e),
        };
        Ok(
            Book {
                name: replace_text(name.as_str(), " 章節列表", ""),
                author: replace_text(author.as_str(), "作者 / ", ""),
            },
        )
    }

    /// Reads the URLs of the book's chapters from its table of contents, in
    /// their order.
    pub fn get_chapter_urls_sorted(&self, document: &str) -> (out: Result<Vec<String>, NovelError>)
        ensures
            texts_or_error(out) == selected_links(
                document@,
                "ul.flex.one.two-700.three-900.all > li > a"@,
                self@,
            ),
    {
        select_links(document, Selector::Novel543ChapterLinks, self.base.as_str())
    }

    /// Reads the chapter that a page holds.
    pub fn get_chapter(&self, document: &str, order: &str) -> (out: Result<Chapter, NovelError>)
        ensures
            chapter_or_error(out) == novel543_chapter(document@, order@),
    {
        let title = match select_text(document, Selector::Novel543Heading) {
            Ok(title) => title,
            Err(e) => return Err(e),
        };
        let text = match select_text(document, Selector::Novel543Text) {
            Ok(text) => text,
            Err(e) => return Err(e),
        };
        Ok(Chapter { order: String::from_str(order), title: trim_text(title.as_str()), text })
    }

    /// Finds the page that continues a chapter's page, if one does.
    pub fn get_next_page(&self, document: &str) -> (out: Result<Option<String>, NovelError>)
        ensures
            option_or_error(out) == novel543_next_page(document@, self@),
    {
        let named = match select_attr(document, Selector::Novel543CurrentPage, "href") {
            Err(e) => return Err(e),
            Ok(None) => return Err(NovelError::NotFound(String::from_str("curr_page href"))),
            Ok(Some(named)) => named,
        };
        let curr_page = match parse_url(named.as_str()) {
            Err(m) => return Err(NovelError::ParseError(m)),
            Ok(curr_page) => curr_page,
        };
        let next_page = match select_attr(
            document,
            Selector::Novel543NextPage,
            "href",
        ) {
            Err(e) => return Err(e),
            Ok(None) => return Err(NovelError::NotFound(String::from_str("next_page href"))),
            Ok(Some(next_page)) => next_page,
        };
        let relative = match relative_url(self.base.as_str(), curr_page.as_str()) {
            Err(m) => return Err(NovelError::ParseError(m)),
            Ok(None) => return Err(NovelError::NotFound(String::from_str("curr_page relative"))),
            Ok(Some(relative)) => relative,
        };
        let stem = replace_text(relative.as_str(), ".html", "");
        let target = chars_of(next_page.as_str());
        let wanted = chars_of(stem.as_str());
        if contains(&target, &wanted) {
            match join_url(self.base.as_str(), next_page.as_str()) {
                Ok(url) => Ok(Some(url)),
                Err(m) => Err(NovelError::ParseError(m)),
            }
        } else {
            Ok(None)
        }
    }

    /// Cleans a chapter's text.
    pub fn process_chapter(&self, chapter: Chapter) -> (out: Chapter)
        ensures
            out.order == chapter.order,
            out.title == chapter.title,
            out.text@ == novel543_text(chapter.text@),
    {
        let chars = chars_of(chapter.text.as_str());
        let body = trim(&chars);
        let pieces = split_inclusive(&body, '。');
        let stray: Vec<char> = vec!['㱕'];
        assert(stray@ =~= seq!['㱕']);
        let mut kept: Vec<Vec<char>> = Vec::new();
        let mut i: usize = 0;
        let ghost keep = |p: Seq<char>| p.len() > 0;
        let ghost all = rows(pieces@).map_values(
            |p: Seq<char>| without_chars(trimmed(p), seq!['㱕']),
        );
        proof {
            reveal(Seq::filter);
            assert(rows(kept@) =~= all.take(0).filter(keep));
        }
        while i < pieces.len()
            invariant
                0 <= i <= pieces.len(),
                stray@ == seq!['㱕'],
                keep == (|p: Seq<char>| p.len() > 0),
                all == rows(pieces@).map_values(
                    |p: Seq<char>| without_chars(trimmed(p), seq!['㱕']),
                ),
                rows(kept@) == all.take(i as int).filter(keep),
            decreases pieces.len() - i,
        {
            let piece = remove_chars(&trim(&pieces[i]), &stray);
            let ghost before = rows(kept@);
            proof {
                reveal(Seq::filter);
                assert(all.take(i + 1).drop_last() =~= all.take(i as int));
                assert(all.take(i + 1).last() == piece@);
            }
            if piece.len() > 0 {
                kept.push(piece);
                assert(rows(kept@) =~= before.push(piece@));
            }
            i += 1;
        }
        assert(all.take(all.len() as int) =~= all);
        let feed: Vec<char> = vec!['\n'];
        assert(feed@ =~= line_feed());
        let joined_lines = join_from(&kept, 0, &feed);
        assert(rows(kept@).skip(0) =~= rows(kept@));
        let text = string_of(&joined_lines);
        Chapter { order: chapter.order, title: chapter.title, text }
    }
}

} // verus!
