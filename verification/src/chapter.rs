//! Books and chapters, and the names of the files that chapters are saved under.

use vstd::prelude::*;

verus! {

/// The two line feeds that separate a chapter's title from its text.
pub open spec fn blank_line() -> Seq<char> {
    seq!['\n', '\n']
}

/// The extension of a saved chapter.
pub open spec fn txt_suffix() -> Seq<char> {
    seq!['.', 't', 'x', 't']
}

/// The file name under which the chapter with the given order key is saved.
pub open spec fn file_name_of(order: Seq<char>) -> Seq<char> {
    order + txt_suffix()
}

/// The name of a book's directory: its author, an underscore, its name.
pub open spec fn book_dir_name(author: Seq<char>, name: Seq<char>) -> Seq<char> {
    author + seq!['_'] + name
}

/// What is written to a chapter's file: title, blank line, text.
pub open spec fn chapter_content(title: Seq<char>, text: Seq<char>) -> Seq<char> {
    title + blank_line() + text
}

/// A book as contracts see it.
pub struct BookView {
    pub name: Seq<char>,
    pub author: Seq<char>,
}

/// A book as its table of contents names it.
#[derive(Debug, Clone, PartialEq, Eq)]
pub struct Book {
    pub name: String,
    pub author: String,
}

impl View for Book {
    type V = BookView;

    open spec fn view(&self) -> BookView {
        BookView { name: self.name@, author: self.author@ }
    }
}

impl Book {
    /// The name of the directory that holds the book's chapters.
    pub fn to_string(&self) -> (out: String)
        ensures
            out@ == book_dir_name(self.author@, self.name@),
    {
        proof {
            reveal_strlit("_");
        }
        let mut out = self.author.clone();
        out.append("_");
        out.append(self.name.as_str());
        assert(out@ =~= book_dir_name(self.author@, self.name@));
        out
    }
}

/// A chapter as contracts see it.
pub struct ChapterView {
    pub order: Seq<char>,
    pub title: Seq<char>,
    pub text: Seq<char>,
}

/// One resolved unit of content, ready to be saved.
#[derive(Debug, Clone, PartialEq, Eq)]
pub struct Chapter {
    pub order: String,
    pub title: String,
    pub text: String,
}

impl View for Chapter {
    type V = ChapterView;

    open spec fn view(&self) -> ChapterView {
        ChapterView { order: self.order@, title: self.title@, text: self.text@ }
    }
}

impl Chapter {
    /// The text of the chapter's file.
    pub fn content(&self) -> (out: String)
        ensures
            out@ == chapter_content(self.title@, self.text@),
    {
        proof {
            reveal_strlit("\n\n");
        }
        let mut out = self.title.clone();
        out.append("\n\n");
        out.append(self.text.as_str());
        assert(out@ =~= chapter_content(self.title@, self.text@));
        out
    }
}

/// The file name of the chapter with the given order key.
pub fn file_name(order: &str) -> (out: String)
    ensures
        out@ == file_name_of(order@),
{
    proof {
        reveal_strlit(".txt");
    }
    let mut out = String::from_str(order);
    out.append(".txt");
    assert(out@ =~= file_name_of(order@));
    out
}

} // verus!
