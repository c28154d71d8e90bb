//! The errors of the library and the text that each one reads as.

use vstd::prelude::*;
use vstd::string::StringExecFns;

verus! {

/// Every way in which an operation on a path can fail. Each variant but the
/// last carries the text that was refused.
#[derive(Debug)]
pub enum Error {
    /// The text holds one of `< > " | ? *`, a colon that is no drive prefix,
    /// or a double slash.
    InvalidCharacter(String),
    /// The text holds NUL, an ASCII control character or DEL.
    ForbiddenAscii(String),
    /// The text ends with a space or a dot.
    MustNotEndWith(String),
    /// A component of the text is a reserved device name, `.` or `..`.
    ReservedWords(String),
    /// The path has no parent.
    NoParent(String),
    /// The path has no final component.
    NoFileName(String),
    /// A position counted in characters lies outside the text.
    CharIndicesNthError(String),
    /// The file system refused an operation on `path`; `source` is what the
    /// operating system said.
    IoError { source: String, path: String },
    /// None of the above.
    Unknown,
}

/// The mathematical value of an [`Error`].
pub enum ErrorView {
    InvalidCharacter(Seq<char>),
    ForbiddenAscii(Seq<char>),
    MustNotEndWith(Seq<char>),
    ReservedWords(Seq<char>),
    NoParent(Seq<char>),
    NoFileName(Seq<char>),
    CharIndicesNthError(Seq<char>),
    IoError { source: Seq<char>, path: Seq<char> },
    Unknown,
}

impl View for Error {
    type V = ErrorView;

    open spec fn view(&self) -> ErrorView {
        match self {
            Error::InvalidCharacter(s) => ErrorView::InvalidCharacter(s@),
            Error::ForbiddenAscii(s) => ErrorView::ForbiddenAscii(s@),
            Error::MustNotEndWith(s) => ErrorView::MustNotEndWith(s@),
            Error::ReservedWords(s) => ErrorView::ReservedWords(s@),
            Error::NoParent(s) => ErrorView::NoParent(s@),
            Error::NoFileName(s) => ErrorView::NoFileName(s@),
            Error::CharIndicesNthError(s) => ErrorView::CharIndicesNthError(s@),
            Error::IoError { source, path } => ErrorView::IoError { source: source@, path: path@ },
            Error::Unknown => ErrorView::Unknown,
        }
    }
}

impl ErrorView {
    /// The sentence that the error reads as.
    pub open spec fn message(self) -> Seq<char> {
        match self {
            ErrorView::InvalidCharacter(s) => "The string "@ + s
                + " contains an invalid windows path character < > : \" | ? * "@,
            ErrorView::ForbiddenAscii(s) => "The string "@ + s
                + " contains forbidden ascii control character for windows path 0-31 "@,
            ErrorView::MustNotEndWith(s) => "The path string "@ + s
                + " must not end with space or dot "@,
            ErrorView::ReservedWords(s) => "The path string "@ + s
                + " must not contain reserved words con, prn, aux, nul, com1-com9, lpt1-lpt9, . and .."@,
            ErrorView::NoParent(s) => "The parent of "@ + s + " does not exist."@,
            ErrorView::NoFileName(s) => "The file_name of "@ + s + " does not exist."@,
            ErrorView::CharIndicesNthError(s) => "char_indices().nth error "@ + s,
            ErrorView::IoError { source, path } => "I/O error: "@ + path + " "@ + source,
            ErrorView::Unknown => "Unknown error."@,
        }
    }
}

/// The result of an operation that yields text, as a mathematical value.
pub open spec fn text_result_view(r: Result<String, Error>) -> Result<Seq<char>, ErrorView> {
    match r {
        Ok(text) => Ok(text@),
        Err(e) => Err(e@),
    }
}

/// `before`, `middle` and `after` in one string.
fn framed(before: &str, middle: &str, after: &str) -> (r: String)
    ensures
        r@ == before@ + middle@ + after@,
{
    let mut r = String::from_str(before);
    r.append(middle);
    r.append(after);
    r
}

impl Error {
    /// The sentence that the error reads as.
    pub fn to_string(&self) -> (r: String)
        ensures
            r@ == self@.message(),
    {
        match self {
            Error::InvalidCharacter(s) => framed(
                "The string ",
                s.as_str(),
                " contains an invalid windows path character < > : \" | ? * ",
            ),
            Error::ForbiddenAscii(s) => framed(
                "The string ",
                s.as_str(),
                " contains forbidden ascii control character for windows path 0-31 ",
            ),
            Error::MustNotEndWith(s) => framed(
                "The path string ",
                s.as_str(),
                " must not end with space or dot ",
            ),
            Error::ReservedWords(s) => framed(
                "The path string ",
                s.as_str(),
                " must not contain reserved words con, prn, aux, nul, com1-com9, lpt1-lpt9, . and ..",
            ),
            Error::NoParent(s) => framed("The parent of ", s.as_str(), " does not exist."),
            Error::NoFileName(s) => framed("The file_name of ", s.as_str(), " does not exist."),
            Error::CharIndicesNthError(s) => {
                let mut r = String::from_str("char_indices().nth error ");
                r.append(s.as_str());
                r
            },
            Error::IoError { source, path } => {
                let mut r = framed("I/O error: ", path.as_str(), " ");
                r.append(source.as_str());
                r
            },
            Error::Unknown => String::from_str("Unknown error."),
        }
    }
}

} // verus!
