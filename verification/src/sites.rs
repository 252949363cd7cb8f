//! The sites that books are fetched from, each with its own markup, and the
//! choice among them by the address of a table of contents.

pub mod czbooks;
pub mod hjwzw;
pub mod novel543;
pub mod piaotia;
pub mod qbtr;
pub mod uukanshu;

use vstd::prelude::*;
use crate::chapter::Book;
use crate::chapter::BookView;
use crate::chapter::Chapter;
use crate::chapter::ChapterView;
use crate::chapter::book_dir_name;
use crate::error::NovelError;
use crate::error::NovelErrorView;
use crate::extract::book_or_error;
use crate::extract::patterns_applied;
use crate::extract::selected_links;
use crate::extract::site_base_of;
use crate::extract::texts_or_error;
use crate::fetch::Encoding;
use crate::sites::czbooks::Czbooks;
use crate::sites::czbooks::czbooks_book;
use crate::sites::czbooks::czbooks_chapter;
use crate::sites::czbooks::czbooks_chapter_urls;
use crate::sites::czbooks::czbooks_patterns;
use crate::sites::hjwzw::Hjwzw;
use crate::sites::hjwzw::hjwzw_book;
use crate::sites::hjwzw::hjwzw_chapter;
use crate::sites::hjwzw::hjwzw_reader;
use crate::sites::hjwzw::hjwzw_text;
use crate::sites::novel543::Novel543;
use crate::sites::novel543::novel543_book;
use crate::sites::novel543::novel543_chapter;
use crate::sites::novel543::novel543_next_page;
use crate::sites::novel543::novel543_text;
use crate::sites::piaotia::Piaotia;
use crate::sites::piaotia::piaotia_book;
use crate::sites::piaotia::piaotia_chapter;
use crate::sites::piaotia::piaotia_reader;
use crate::sites::piaotia::piaotia_text;
use crate::sites::qbtr::Qbtr;
use crate::sites::qbtr::qbtr_book;
use crate::sites::qbtr::qbtr_chapter;
use crate::sites::qbtr::qbtr_reader;
use crate::sites::qbtr::qbtr_text;
use crate::sites::uukanshu::UUkanshu;
use crate::sites::uukanshu::uukanshu_book;
use crate::sites::uukanshu::uukanshu_chapter;
use crate::sites::uukanshu::uukanshu_chapter_urls;
use crate::sites::uukanshu::uukanshu_reader;
use crate::sites::uukanshu::uukanshu_text;
use crate::extract::first_fault;
use crate::text::chars_of;
use crate::text::starts_with;

verus! {

/// The sites that the crawler reads.
#[derive(Debug, Clone, Copy, PartialEq, Eq)]
pub enum SiteKind {
    Hjwzw,
    Piaotia,
    UUkanshu,
    Czbooks,
    Novel543,
    Qbtr,
}

/// The site whose pages' addresses begin with the address of its home; the
/// first such site, in the order in which the sites are asked.
pub open spec fn site_of(url: Seq<char>) -> Option<SiteKind> {
    if "https://tw.hjwzw.com/"@.is_prefix_of(url) {
        Some(SiteKind::Hjwzw)
    } else if "https://www.piaotia.com/"@.is_prefix_of(url) {
        Some(SiteKind::Piaotia)
    } else if "https://uukanshu.cc/"@.is_prefix_of(url) {
        Some(SiteKind::UUkanshu)
    } else if "https://czbooks.net/"@.is_prefix_of(url) {
        Some(SiteKind::Czbooks)
    } else if "https://www.novel543.com/"@.is_prefix_of(url) {
        Some(SiteKind::Novel543)
    } else if "https://www.qbtr.cc/"@.is_prefix_of(url) {
        Some(SiteKind::Qbtr)
    } else {
        None
    }
}

/// How many fetches may run at once on a site.
pub open spec fn limit_of(kind: SiteKind) -> usize {
    match kind {
        SiteKind::Czbooks => 1,
        SiteKind::Novel543 => 1,
        _ => 10,
    }
}

/// How many milliseconds lie between two requests to a site.
pub open spec fn delay_of(kind: SiteKind) -> u64 {
    match kind {
        SiteKind::Czbooks => 1000,
        SiteKind::Novel543 => 1000,
        _ => 0,
    }
}

/// Whether the text begins with the given start.
fn begins_with(text: &Vec<char>, start: &str) -> (out: bool)
    ensures
        out == start@.is_prefix_of(text@),
{
    let prefix = chars_of(start);
    starts_with(text, &prefix)
}

impl SiteKind {
    /// The site that a table of contents at `url` belongs to, if the
    /// crawler reads it.
    pub fn for_url(url: &str) -> (out: Option<SiteKind>)
        ensures
            out == site_of(url@),
    {
        let text = chars_of(url);
        if begins_with(&text, "https://tw.hjwzw.com/") {
            Some(SiteKind::Hjwzw)
        } else if begins_with(&text, "https://www.piaotia.com/") {
            Some(SiteKind::Piaotia)
        } else if begins_with(&text, "https://uukanshu.cc/") {
            Some(SiteKind::UUkanshu)
        } else if begins_with(&text, "https://czbooks.net/") {
            Some(SiteKind::Czbooks)
        } else if begins_with(&text, "https://www.novel543.com/") {
            Some(SiteKind::Novel543)
        } else if begins_with(&text, "https://www.qbtr.cc/") {
            Some(SiteKind::Qbtr)
        } else {
            None
        }
    }

    /// The number of fetches that may run at once on the site.
    pub fn concurrency_limit(&self) -> (out: usize)
        ensures
            out == limit_of(*self),
            out >= 1,
    {
        match self {
            SiteKind::Czbooks => 1,
            SiteKind::Novel543 => 1,
            _ => 10,
        }
    }

    /// The pause between two requests to the site, in milliseconds.
    pub fn delay_millis(&self) -> (out: u64)
        ensures
            out == delay_of(*self),
    {
        match self {
            SiteKind::Czbooks => 1000,
            SiteKind::Novel543 => 1000,
            _ => 0,
        }
    }
}

/// A reader for one of the sites.
pub enum Site {
    Hjwzw(Hjwzw),
    Piaotia(Piaotia),
    UUkanshu(UUkanshu),
    Czbooks(Czbooks),
    Novel543(Novel543),
    Qbtr(Qbtr),
}

/// Whether a reader is the one that `kind` and `url` ask for.
pub open spec fn opened(out: Result<Site, NovelError>, kind: SiteKind, url: Seq<char>) -> bool {
    match kind {
        SiteKind::Hjwzw => match hjwzw_reader(url) {
            Ok(v) => out is Ok && out->Ok_0 is Hjwzw && out->Ok_0->Hjwzw_0@ == v,
            Err(e) => out is Err && out->Err_0@ == e,
        },
        SiteKind::Piaotia => match piaotia_reader(url) {
            Ok(v) => out is Ok && out->Ok_0 is Piaotia && out->Ok_0->Piaotia_0@ == v,
            Err(e) => out is Err && out->Err_0@ == e,
        },
        SiteKind::UUkanshu => match uukanshu_reader(url) {
            Ok(v) => out is Ok && out->Ok_0 is UUkanshu && out->Ok_0->UUkanshu_0@ == v,
            Err(e) => out is Err && out->Err_0@ == e,
        },
        SiteKind::Czbooks => match first_fault(czbooks_patterns()) {
            None => out is Ok && out->Ok_0 is Czbooks && out->Ok_0->Czbooks_0.replacer()
                == czbooks_patterns(),
            Some(m) => out is Err && out->Err_0@ == NovelErrorView::RegexError(m),
        },
        SiteKind::Novel543 => match site_base_of(url) {
            Ok(v) => out is Ok && out->Ok_0 is Novel543 && out->Ok_0->Novel543_0@ == v,
            Err(e) => out is Err && out->Err_0@ == e,
        },
        SiteKind::Qbtr => match qbtr_reader(url) {
            Ok(v) => out is Ok && out->Ok_0 is Qbtr && out->Ok_0->Qbtr_0@ == v,
            Err(e) => out is Err && out->Err_0@ == e,
        },
    }
}

/// The name of a site.
pub open spec fn site_name(kind: SiteKind) -> Seq<char> {
    match kind {
        SiteKind::Hjwzw => "黃金屋"@,
        SiteKind::Piaotia => "飄天"@,
        SiteKind::UUkanshu => "UU看書"@,
        SiteKind::Czbooks => "小說狂人"@,
        SiteKind::Novel543 => "稷下書院"@,
        SiteKind::Qbtr => "全本同人"@,
    }
}

/// The encoding that a site's pages need.
pub open spec fn encoding_of(kind: SiteKind) -> Option<Encoding> {
    match kind {
        SiteKind::Piaotia => Some(Encoding::Gbk),
        SiteKind::Qbtr => Some(Encoding::Gbk),
        _ => None,
    }
}

/// A chapter and the page that continues it, or an error, as contracts see
/// them.
pub open spec fn page_or_error(r: Result<(Chapter, Option<String>), NovelError>) -> Result<
    (ChapterView, Option<Seq<char>>),
    NovelErrorView,
> {
    match r {
        Ok((chapter, Some(next))) => Ok((chapter@, Some(next@))),
        Ok((chapter, None)) => Ok((chapter@, None)),
        Err(e) => Err(e@),
    }
}

impl Site {
    /// Which site the reader is for.
    pub open spec fn kind(&self) -> SiteKind {
        match *self {
            Site::Hjwzw(_) => SiteKind::Hjwzw,
            Site::Piaotia(_) => SiteKind::Piaotia,
            Site::UUkanshu(_) => SiteKind::UUkanshu,
            Site::Czbooks(_) => SiteKind::Czbooks,
            Site::Novel543(_) => SiteKind::Novel543,
            Site::Qbtr(_) => SiteKind::Qbtr,
        }
    }

    /// The book that a table of contents names, as this site writes it.
    pub open spec fn book_in(&self, document: Seq<char>) -> Result<BookView, NovelErrorView> {
        match *self {
            Site::Hjwzw(_) => hjwzw_book(document),
            Site::Piaotia(_) => piaotia_book(document),
            Site::UUkanshu(_) => uukanshu_book(document),
            Site::Czbooks(_) => czbooks_book(document),
            Site::Novel543(_) => novel543_book(document),
            Site::Qbtr(_) => qbtr_book(document),
        }
    }

    /// The URLs of a book's chapters, first chapter first, as this site's
    /// table of contents lists them.
    pub open spec fn chapter_urls_in(&self, document: Seq<char>) -> Result<
        Seq<Seq<char>>,
        NovelErrorView,
    > {
        match *self {
            Site::Hjwzw(r) => selected_links(document, "div#tbchapterlist a"@, r@.base),
            Site::Piaotia(r) => selected_links(document, "div.centent li a"@, r@.base),
            Site::UUkanshu(r) => uukanshu_chapter_urls(document, r@.base),
            Site::Czbooks(_) => czbooks_chapter_urls(document),
            Site::Novel543(r) => selected_links(
                document,
                "ul.flex.one.two-700.three-900.all > li > a"@,
                r@,
            ),
            Site::Qbtr(r) => selected_links(
                document,
                "div.book_list.clearfix > ul > li > a"@,
                r@.base,
            ),
        }
    }

    /// The chapter that a page holds, as this site writes it.
    pub open spec fn chapter_in(&self, document: Seq<char>, order: Seq<char>) -> Result<
        ChapterView,
        NovelErrorView,
    > {
        match *self {
            Site::Hjwzw(_) => hjwzw_chapter(document, order),
            Site::Piaotia(_) => piaotia_chapter(document, order),
            Site::UUkanshu(_) => uukanshu_chapter(document, order),
            Site::Czbooks(_) => czbooks_chapter(document, order),
            Site::Novel543(_) => novel543_chapter(document, order),
            Site::Qbtr(_) => qbtr_chapter(document, order),
        }
    }

    /// The page that continues a chapter's page, as this site names it.
    pub open spec fn next_page_in(&self, document: Seq<char>) -> Result<
        Option<Seq<char>>,
        NovelErrorView,
    > {
        match *self {
            Site::Novel543(r) => novel543_next_page(document, r@),
            _ => Ok(None),
        }
    }

    /// A chapter's text, cleaned by this site's rules.
    pub open spec fn cleaned(&self, text: Seq<char>) -> Seq<char> {
        match *self {
            Site::Hjwzw(r) => hjwzw_text(text, r@.replacer),
            Site::Piaotia(r) => piaotia_text(text, r@.replacer),
            Site::UUkanshu(r) => uukanshu_text(text, r@.replacer),
            Site::Czbooks(r) => patterns_applied(text, r.replacer()),
            Site::Novel543(_) => novel543_text(text),
            Site::Qbtr(r) => qbtr_text(text, r@.replacer),
        }
    }

    /// What a chapter's page yields: the chapter, cleaned, under the given
    /// order key, and the page that continues it. A failure to read the
    /// chapter comes before a failure to find the next page.
    pub open spec fn page_in(&self, document: Seq<char>, order: Seq<char>) -> Result<
        (ChapterView, Option<Seq<char>>),
        NovelErrorView,
    > {
        match self.chapter_in(document, order) {
            Err(e) => Err(e),
            Ok(chapter) => match self.next_page_in(document) {
                Err(e) => Err(e),
                Ok(next_page) => Ok(
                    (
                        ChapterView {
                            order: chapter.order,
                            title: chapter.title,
                            text: self.cleaned(chapter.text),
                        },
                        next_page,
                    ),
                ),
            },
        }
    }

    /// The reader of the given site for the book whose table of contents is
    /// at `url`.
    pub fn open(kind: SiteKind, url: &str) -> (out: Result<Site, NovelError>)
        ensures
            opened(out, kind, url@),
            out is Ok ==> out->Ok_0.kind() == kind,
    {
        match kind {
            SiteKind::Hjwzw => match Hjwzw::new(url) {
                Ok(reader) => Ok(Site::Hjwzw(reader)),
                Err(e) => Err(e),
            },
            SiteKind::Piaotia => match Piaotia::new(url) {
                Ok(reader) => Ok(Site::Piaotia(reader)),
                Err(e) => Err(e),
            },
            SiteKind::UUkanshu => match UUkanshu::new(url) {
                Ok(reader) => Ok(Site::UUkanshu(reader)),
                Err(e) => Err(e),
            },
            SiteKind::Czbooks => match Czbooks::new() {
                Ok(reader) => Ok(Site::Czbooks(reader)),
                Err(e) => Err(e),
            },
            SiteKind::Novel543 => match Novel543::new(url) {
                Ok(reader) => Ok(Site::Novel543(reader)),
                Err(e) => Err(e),
            },
            SiteKind::Qbtr => match Qbtr::new(url) {
                Ok(reader) => Ok(Site::Qbtr(reader)),
                Err(e) => Err(e),
            },
        }
    }

    /// The site's name.
    pub fn to_string(&self) -> (out: String)
        ensures
            out@ == site_name(self.kind()),
    {
        match self {
            Site::Hjwzw(r) => r.to_string(),
            Site::Piaotia(r) => r.to_string(),
            Site::UUkanshu(r) => r.to_string(),
            Site::Czbooks(r) => r.to_string(),
            Site::Novel543(r) => r.to_string(),
            Site::Qbtr(r) => r.to_string(),
        }
    }

    /// The encoding in which the site's pages are to be read, where the
    /// transport would not find it out.
    pub fn need_encoding(&self) -> (out: Option<Encoding>)
        ensures
            out == encoding_of(self.kind()),
    {
        match self {
            Site::Piaotia(r) => r.need_encoding(),
            Site::Qbtr(r) => r.need_encoding(),
            _ => None,
        }
    }

    /// Reads the book's name and author from its table of contents.
    pub fn get_book_info(&self, document: &str) -> (out: Result<Book, NovelError>)
        ensures
            book_or_error(out) == self.book_in(document@),
    {
        match self {
            Site::Hjwzw(r) => r.get_book_info(document),
            Site::Piaotia(r) => r.get_book_info(document),
            Site::UUkanshu(r) => r.get_book_info(document),
            Site::Czbooks(r) => r.get_book_info(document),
            Site::Novel543(r) => r.get_book_info(document),
            Site::Qbtr(r) => r.get_book_info(document),
        }
    }

    /// Reads the URLs of the book's chapters from its table of contents,
    /// first chapter first.
    pub fn get_chapter_urls_sorted(&self, document: &str) -> (out: Result<Vec<String>, NovelError>)
        ensures
            texts_or_error(out) == self.chapter_urls_in(document@),
    {
        match self {
            Site::Hjwzw(r) => r.get_chapter_urls_sorted(document),
            Site::Piaotia(r) => r.get_chapter_urls_sorted(document),
            Site::UUkanshu(r) => r.get_chapter_urls_sorted(document),
            Site::Czbooks(r) => r.get_chapter_urls_sorted(document),
            Site::Novel543(r) => r.get_chapter_urls_sorted(document),
            Site::Qbtr(r) => r.get_chapter_urls_sorted(document),
        }
    }

    /// Reads a chapter's page: the chapter under the given order key, its
    /// text cleaned, and the page that continues it, if one does.
    pub fn process_url(&self, document: &str, order: &str) -> (out: Result<
        (Chapter, Option<String>),
        NovelError,
    >)
        ensures
            page_or_error(out) == self.page_in(document@, order@),
    {
        match self {
            Site::Hjwzw(r) => {
                let chapter = match r.get_chapter(document, order) {
                    Ok(chapter) => r.process_chapter(chapter),
                    Err(e) => return Err(e),
                };
                Ok((chapter, None))
            },
            Site::Piaotia(r) => {
                let chapter = match r.get_chapter(document, order) {
                    Ok(chapter) => r.process_chapter(chapter),
                    Err(e) => return Err(e),
                };
                Ok((chapter, None))
            },
            Site::UUkanshu(r) => {
                let chapter = match r.get_chapter(document, order) {
                    Ok(chapter) => r.process_chapter(chapter),
                    Err(e) => return Err(e),
                };
                Ok((chapter, None))
            },
            Site::Czbooks(r) => {
                let chapter = match r.get_chapter(document, order) {
                    Ok(chapter) => r.process_chapter(chapter),
                    Err(e) => return Err(e),
                };
                Ok((chapter, None))
            },
            Site::Novel543(r) => {
                let chapter = match r.get_chapter(document, order) {
                    Ok(chapter) => r.process_chapter(chapter),
                    Err(e) => return Err(e),
                };
                match r.get_next_page(document) {
                    Ok(next_page) => Ok((chapter, next_page)),
                    Err(e) => Err(e),
                }
            },
            Site::Qbtr(r) => {
                let chapter = match r.get_chapter(document, order) {
                    Ok(chapter) => r.process_chapter(chapter),
                    Err(e) => return Err(e),
                };
                Ok((chapter, None))
            },
        }
    }
}

/// Where a book's chapters are saved, as the names of the directories that
/// lead there: the working directory, the site's, the book's.
pub open spec fn book_path(site: Seq<char>, author: Seq<char>, name: Seq<char>) -> Seq<Seq<char>> {
    seq!["temp"@, site, book_dir_name(author, name)]
}

/// The directories that lead to a book's chapters, from the directory that
/// all downloads go to.
pub fn book_dir(site: &Site, book: &Book) -> (out: Vec<String>)
    ensures
        crate::text::text_list(out@) == book_path(site_name(site.kind()), book.author@, book.name@),
{
    let mut out: Vec<String> = Vec::new();
    out.push(String::from_str("temp"));
    out.push(site.to_string());
    out.push(book.to_string());
    assert(crate::text::text_list(out@) =~= book_path(
        site_name(site.kind()),
        book.author@,
        book.name@,
    ));
    out
}

} // verus!
