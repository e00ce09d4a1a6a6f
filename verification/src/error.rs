//! The failures of an index generation cycle.

use vstd::prelude::*;

verus! {

/// Why an index generation cycle was abandoned. Each variant holds the text
/// that describes the failure.
#[derive(Debug, PartialEq, Eq)]
pub enum Error {
    /// The listing document could not be written.
    Io(String),
    /// The root directory could not be opened for reading.
    ReadDir(String),
    /// An entry of the root directory could not be read.
    Entry(String),
}

/// The mathematical content of an [`Error`].
pub enum ErrorView {
    Io(Seq<char>),
    ReadDir(Seq<char>),
    Entry(Seq<char>),
}

impl ErrorView {
    /// The text that describes the failure.
    pub open spec fn message(self) -> Seq<char> {
        match self {
            ErrorView::Io(text) => text,
            ErrorView::ReadDir(text) => text,
            ErrorView::Entry(text) => text,
        }
    }
}

impl View for Error {
    type V = ErrorView;

    open spec fn view(&self) -> ErrorView {
        match self {
            Error::Io(text) => ErrorView::Io(text@),
            Error::ReadDir(text) => ErrorView::ReadDir(text@),
            Error::Entry(text) => ErrorView::Entry(text@),
        }
    }
}

impl Error {

    /// Returns the text that describes the failure.
    pub fn message(&self) -> (text: String)
        ensures
            text@ == self@.message(),
    {
        match self {
            Error::Io(text) => text.clone(),
            Error::ReadDir(text) => text.clone(),
            Error::Entry(text) => text.clone(),
        }
    }
}

/// The text of the failure to open `root`, caused by `cause`.
pub open spec fn read_dir_message(root: Seq<char>, cause: Seq<char>) -> Seq<char> {
    "Error reading "@ + root + ": "@ + cause
}

/// The text of the failure to read a directory entry, caused by `cause`.
pub open spec fn entry_message(cause: Seq<char>) -> Seq<char> {
    "Error looking up next entry: "@ + cause
}

/// Builds the failure to open `root` from the system's description of it.
pub fn read_dir_error(root: &str, cause: &str) -> (error: Error)
    ensures
        error@ == ErrorView::ReadDir(read_dir_message(root@, cause@)),
{
    let mut text = String::from_str("Error reading ");
    text.append(root);
    text.append(": ");
    text.append(cause);
    Error::ReadDir(text)
}

/// Builds the failure to read a directory entry from the system's
/// description of it.
pub fn entry_error(cause: &str) -> (error: Error)
    ensures
        error@ == ErrorView::Entry(entry_message(cause@)),
{
    let mut text = String::from_str("Error looking up next entry: ");
    text.append(cause);
    Error::Entry(text)
}

/// Builds the failure to write the listing document from the system's
/// description of it, which becomes the error's text unchanged.
pub fn io_error(cause: &str) -> (error: Error)
    ensures
        error@ == ErrorView::Io(cause@),
{
    Error::Io(String::from_str(cause))
}

} // verus!
