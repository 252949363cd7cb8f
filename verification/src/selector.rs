//! The selectors by which the sites' readers find what they read in a
//! document. A document is only ever asked with one of these.

use vstd::prelude::*;

verus! {

/// What a reader looks for in a document of its site.
#[derive(Debug, Clone, Copy, PartialEq, Eq)]
pub enum Selector {
    /// Czbooks: the title of a book.
    CzbooksTitle,
    /// Czbooks: the author of a book.
    CzbooksAuthor,
    /// Czbooks: the links to a book's chapters.
    CzbooksChapterLinks,
    /// Czbooks: the heading of a chapter.
    CzbooksHeading,
    /// Czbooks: the text of a chapter.
    CzbooksText,
    /// Hjwzw: the title of a book.
    HjwzwTitle,
    /// Hjwzw: the author of a book.
    HjwzwAuthor,
    /// Hjwzw: the links to a book's chapters.
    HjwzwChapterLinks,
    /// Hjwzw: the heading of a chapter.
    HjwzwHeading,
    /// Hjwzw: the advertisement within a chapter.
    HjwzwAdvertisement,
    /// Hjwzw: the text of a chapter.
    HjwzwText,
    /// Novel543: the title of a book.
    Novel543Title,
    /// Novel543: the author of a book.
    Novel543Author,
    /// Novel543: the links to a book's chapters.
    Novel543ChapterLinks,
    /// Novel543: the heading of a chapter.
    Novel543Heading,
    /// Novel543: the text of a chapter.
    Novel543Text,
    /// Novel543: the link by which a page names itself.
    Novel543CurrentPage,
    /// Novel543: the link to the page that follows.
    Novel543NextPage,
    /// Piaotia: the title of a book.
    PiaotiaTitle,
    /// Piaotia: the author of a book.
    PiaotiaAuthor,
    /// Piaotia: the links to a book's chapters.
    PiaotiaChapterLinks,
    /// Piaotia: the heading of a chapter.
    PiaotiaHeading,
    /// Piaotia: the whole page of a chapter.
    PiaotiaPage,
    /// Qbtr: the title of a book.
    QbtrTitle,
    /// Qbtr: the author of a book.
    QbtrAuthor,
    /// Qbtr: the links to a book's chapters.
    QbtrChapterLinks,
    /// Qbtr: the heading of a chapter.
    QbtrHeading,
    /// Qbtr: the paragraphs of a chapter.
    QbtrParagraphs,
    /// UUkanshu: the title of a book.
    UUkanshuTitle,
    /// UUkanshu: the author of a book.
    UUkanshuAuthor,
    /// UUkanshu: the links to a book's chapters.
    UUkanshuChapterLinks,
    /// UUkanshu: the heading of a chapter.
    UUkanshuHeading,
    /// UUkanshu: the text of a chapter.
    UUkanshuText,
}

/// The selector as the document is asked with it.
pub open spec fn selector_text(selector: Selector) -> Seq<char> {
    match selector {
        Selector::CzbooksTitle => "span.title"@,
        Selector::CzbooksAuthor => "span.author > a"@,
        Selector::CzbooksChapterLinks => "ul.nav.chapter-list > li > a"@,
        Selector::CzbooksHeading => "div.name"@,
        Selector::CzbooksText => "div.content"@,
        Selector::HjwzwTitle => "h1"@,
        Selector::HjwzwAuthor => "body > div:first-child > table:nth-of-type(7) tr:nth-child(2) a:first-child"@,
        Selector::HjwzwChapterLinks => "div#tbchapterlist a"@,
        Selector::HjwzwHeading => "table:nth-of-type(7) h1"@,
        Selector::HjwzwAdvertisement => "div#Pan_Ad1"@,
        Selector::HjwzwText => "table:nth-of-type(7) div:nth-of-type(4)"@,
        Selector::Novel543Title => "h1.title.is-2"@,
        Selector::Novel543Author => "h2.title.is-4"@,
        Selector::Novel543ChapterLinks => "ul.flex.one.two-700.three-900.all > li > a"@,
        Selector::Novel543Heading => "#chapterWarp > div.chapter-content.px-3 > h1"@,
        Selector::Novel543Text => "#chapterWarp > div.chapter-content.px-3 > div"@,
        Selector::Novel543CurrentPage => "head > link:nth-last-of-type(1)"@,
        Selector::Novel543NextPage => "#read > div > div.warp.my-5.foot-nav > a:nth-child(5)"@,
        Selector::PiaotiaTitle => "div.title h1"@,
        Selector::PiaotiaAuthor => "meta[name=author]"@,
        Selector::PiaotiaChapterLinks => "div.centent li a"@,
        Selector::PiaotiaHeading => "H1"@,
        Selector::PiaotiaPage => "html"@,
        Selector::QbtrTitle => "div.infos > h1"@,
        Selector::QbtrAuthor => "div.date > span"@,
        Selector::QbtrChapterLinks => "div.book_list.clearfix > ul > li > a"@,
        Selector::QbtrHeading => "div.read_chapterName.tc > h1"@,
        Selector::QbtrParagraphs => "div.read_chapterDetail > p"@,
        Selector::UUkanshuTitle => "dd.jieshao_content > h1 > a"@,
        Selector::UUkanshuAuthor => "dd.jieshao_content > h2 > a"@,
        Selector::UUkanshuChapterLinks => "ul#chapterList a"@,
        Selector::UUkanshuHeading => "h1#timu"@,
        Selector::UUkanshuText => "div#contentbox.uu_cont"@,
    }
}

/// Whether a text is one of the readers' selectors.
pub open spec fn is_selector(text: Seq<char>) -> bool {
    exists|selector: Selector| #[trigger] selector_text(selector) == text
}

impl Selector {
    /// The selector as the document is asked with it.
    pub fn text(&self) -> (out: &'static str)
        ensures
            out@ == selector_text(*self),
            is_selector(out@),
    {
        assert(is_selector(selector_text(*self)));
        match self {
            Selector::CzbooksTitle => "span.title",
            Selector::CzbooksAuthor => "span.author > a",
            Selector::CzbooksChapterLinks => "ul.nav.chapter-list > li > a",
            Selector::CzbooksHeading => "div.name",
            Selector::CzbooksText => "div.content",
            Selector::HjwzwTitle => "h1",
            Selector::HjwzwAuthor => "body > div:first-child > table:nth-of-type(7) tr:nth-child(2) a:first-child",
            Selector::HjwzwChapterLinks => "div#tbchapterlist a",
            Selector::HjwzwHeading => "table:nth-of-type(7) h1",
            Selector::HjwzwAdvertisement => "div#Pan_Ad1",
            Selector::HjwzwText => "table:nth-of-type(7) div:nth-of-type(4)",
            Selector::Novel543Title => "h1.title.is-2",
            Selector::Novel543Author => "h2.title.is-4",
            Selector::Novel543ChapterLinks => "ul.flex.one.two-700.three-900.all > li > a",
            Selector::Novel543Heading => "#chapterWarp > div.chapter-content.px-3 > h1",
            Selector::Novel543Text => "#chapterWarp > div.chapter-content.px-3 > div",
            Selector::Novel543CurrentPage => "head > link:nth-last-of-type(1)",
            Selector::Novel543NextPage => "#read > div > div.warp.my-5.foot-nav > a:nth-child(5)",
            Selector::PiaotiaTitle => "div.title h1",
            Selector::PiaotiaAuthor => "meta[name=author]",
            Selector::PiaotiaChapterLinks => "div.centent li a",
            Selector::PiaotiaHeading => "H1",
            Selector::PiaotiaPage => "html",
            Selector::QbtrTitle => "div.infos > h1",
            Selector::QbtrAuthor => "div.date > span",
            Selector::QbtrChapterLinks => "div.book_list.clearfix > ul > li > a",
            Selector::QbtrHeading => "div.read_chapterName.tc > h1",
            Selector::QbtrParagraphs => "div.read_chapterDetail > p",
            Selector::UUkanshuTitle => "dd.jieshao_content > h1 > a",
            Selector::UUkanshuAuthor => "dd.jieshao_content > h2 > a",
            Selector::UUkanshuChapterLinks => "ul#chapterList a",
            Selector::UUkanshuHeading => "h1#timu",
            Selector::UUkanshuText => "div#contentbox.uu_cont",
        }
    }
}

} // verus!
