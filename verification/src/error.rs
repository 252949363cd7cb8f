//! The failures a crawl can meet, and which of them a retry may cure.

use vstd::prelude::*;

verus! {

/// What can go wrong while a book is fetched, read and saved.
#[derive(Debug, Clone, PartialEq, Eq)]
pub enum NovelError {
    /// An expected fragment of a document is missing; the field names it.
    NotFound(String),
    /// A URL is malformed; the field holds the parser's message.
    ParseError(String),
    /// A URL cannot serve as the base that relative links are resolved against.
    CannotBeABase(String),
    /// The transport failed; `timeout` tells a timeout from every other failure.
    ReqwestError { message: String, timeout: bool },
    /// The local file system failed.
    StdIOError(String),
    /// A document could not be loaded or queried.
    VisdomError(String),
    /// A multi-pattern matcher could not be built.
    AhoCorasickError(String),
    /// A pattern could not be compiled.
    RegexError(String),
}

/// An error as contracts see it.
pub enum NovelErrorView {
    NotFound(Seq<char>),
    ParseError(Seq<char>),
    CannotBeABase(Seq<char>),
    ReqwestError { message: Seq<char>, timeout: bool },
    StdIOError(Seq<char>),
    VisdomError(Seq<char>),
    AhoCorasickError(Seq<char>),
    RegexError(Seq<char>),
}

impl View for NovelError {
    type V = NovelErrorView;

    open spec fn view(&self) -> NovelErrorView {
        match *self {
            NovelError::NotFound(s) => NovelErrorView::NotFound(s@),
            NovelError::ParseError(s) => NovelErrorView::ParseError(s@),
            NovelError::CannotBeABase(s) => NovelErrorView::CannotBeABase(s@),
            NovelError::ReqwestError { message, timeout } => NovelErrorView::ReqwestError {
                message: message@,
                timeout,
            },
            NovelError::StdIOError(s) => NovelErrorView::StdIOError(s@),
            NovelError::VisdomError(s) => NovelErrorView::VisdomError(s@),
            NovelError::AhoCorasickError(s) => NovelErrorView::AhoCorasickError(s@),
            NovelError::RegexError(s) => NovelErrorView::RegexError(s@),
        }
    }
}

/// Whether the error is a transport timeout, the one failure that is retried.
pub open spec fn is_timeout_error(e: NovelError) -> bool {
    match e {
        NovelError::ReqwestError { message, timeout } => timeout,
        _ => false,
    }
}

/// The text that introduces an error's field in its message.
pub open spec fn error_prefix(e: NovelError) -> Seq<char> {
    match e {
        NovelError::NotFound(_) => Seq::empty(),
        NovelError::ParseError(_) => seq!['p', 'a', 'r', 's', 'e', ' ', 'f', 'a', 'i', 'l', ' '],
        NovelError::CannotBeABase(_) => Seq::empty(),
        NovelError::ReqwestError { .. } => seq![
            'r', 'e', 'q', 'w', 'e', 's', 't', ' ', 'f', 'a', 'i', 'l', ' ',
        ],
        NovelError::StdIOError(_) => seq![
            's', 't', 'd', ' ', 'i', 'o', ' ', 'f', 'a', 'i', 'l', ' ',
        ],
        NovelError::VisdomError(_) => seq![
            'v', 'i', 's', 'd', 'o', 'm', ' ', 'f', 'a', 'i', 'l', ' ',
        ],
        NovelError::AhoCorasickError(_) => seq![
            'A', 'h', 'o', 'C', 'o', 'r', 'a', 's', 'i', 'c', 'k', ' ', 'f', 'a', 'i', 'l', ' ',
        ],
        NovelError::RegexError(_) => seq!['R', 'e', 'g', 'e', 'x', ' ', 'f', 'a', 'i', 'l', ' '],
    }
}

/// The text that follows an error's field in its message.
pub open spec fn error_suffix(e: NovelError) -> Seq<char> {
    match e {
        NovelError::NotFound(_) => seq![
            ' ', 'c', 'a', 'n', ' ', 'n', 'o', 't', ' ', 'b', 'e', ' ', 'f', 'o', 'u', 'n', 'd',
        ],
        NovelError::CannotBeABase(_) => seq![
            ' ', 'c', 'a', 'n', ' ', 'n', 'o', 't', ' ', 'b', 'e', ' ', 'a', ' ', 'b', 'a', 's', 'e',
        ],
        _ => Seq::empty(),
    }
}

/// The field that an error's message quotes.
pub open spec fn error_detail(e: NovelError) -> Seq<char> {
    match e {
        NovelError::NotFound(s) => s@,
        NovelError::ParseError(s) => s@,
        NovelError::CannotBeABase(s) => s@,
        NovelError::ReqwestError { message, timeout } => message@,
        NovelError::StdIOError(s) => s@,
        NovelError::VisdomError(s) => s@,
        NovelError::AhoCorasickError(s) => s@,
        NovelError::RegexError(s) => s@,
    }
}

/// An error's message: prefix, field, suffix.
pub open spec fn error_message(e: NovelError) -> Seq<char> {
    error_prefix(e) + error_detail(e) + error_suffix(e)
}

impl NovelError {
    /// Whether a retry may cure this error: only a transport timeout.
    pub fn is_timeout(&self) -> (out: bool)
        ensures
            out == is_timeout_error(*self),
    {
        match self {
            NovelError::ReqwestError { message: _, timeout } => *timeout,
            _ => false,
        }
    }

    /// The error's message.
    pub fn to_string(&self) -> (out: String)
        ensures
            out@ == error_message(*self),
    {
        proof {
            reveal_strlit("");
            reveal_strlit("parse fail ");
            reveal_strlit("reqwest fail ");
            reveal_strlit("std io fail ");
            reveal_strlit("visdom fail ");
            reveal_strlit("AhoCorasick fail ");
            reveal_strlit("Regex fail ");
            reveal_strlit(" can not be found");
            reveal_strlit(" can not be a base");
        }
        let (prefix, detail, suffix): (&str, &String, &str) = match self {
            NovelError::NotFound(s) => ("", s, " can not be found"),
            NovelError::ParseError(s) => ("parse fail ", s, ""),
            NovelError::CannotBeABase(s) => ("", s, " can not be a base"),
            NovelError::ReqwestError { message, timeout: _ } => ("reqwest fail ", message, ""),
            NovelError::StdIOError(s) => ("std io fail ", s, ""),
            NovelError::VisdomError(s) => ("visdom fail ", s, ""),
            NovelError::AhoCorasickError(s) => ("AhoCorasick fail ", s, ""),
            NovelError::RegexError(s) => ("Regex fail ", s, ""),
        };
        assert(prefix@ =~= error_prefix(*self));
        assert(suffix@ =~= error_suffix(*self));
        assert(detail@ == error_detail(*self));
        let mut out = String::from_str(prefix);
        out.append(detail.as_str());
        out.append(suffix);
        out
    }
}

} // verus!
