//! What can go wrong while a page is made.

use vstd::prelude::*;

verus! {

/// Why no page could be made.
#[derive(Debug)]
pub enum Error {
    /// Something else went wrong; the field says what.
    Generic(String),
    /// The navigation could not be made.
    Nav(crate::utils::Error),
    /// The page could not be made from its markdown.
    Markdown(crate::markdown::Error),
    /// The calendar of readings could not be made.
    Lectionary(crate::lectionary::Error),
    /// Reading a file failed; the field holds the reason in words.
    IO(String),
    /// The work was given up before it was done; the field holds the reason
    /// in words.
    TokioJoinError(String),
    /// No answer could be put together; the field holds the reason in words.
    Axum(String),
}

/// The status under which an error is answered where no page can be shown
/// for it.
pub const NOT_FOUND: u16 = 404;

impl Error {
    /// The error in words, as the contracts see them.
    pub open spec fn message_text(&self) -> Seq<char> {
        match *self {
            Error::Generic(what) => "Generic "@ + what@,
            Error::Nav(e) => e.message_text(),
            Error::Markdown(e) => e.message_text(),
            Error::Lectionary(e) => e.message_text(),
            Error::IO(reason) => reason@,
            Error::TokioJoinError(reason) => reason@,
            Error::Axum(reason) => reason@,
        }
    }

    /// The error in words.
    pub fn message(&self) -> (text: String)
        ensures
            text@ == self.message_text(),
    {
        match self {
            Error::Generic(what) => "Generic ".to_owned().concat(what.as_str()),
            Error::Nav(e) => e.message(),
            Error::Markdown(e) => e.message(),
            Error::Lectionary(e) => e.message(),
            Error::IO(reason) => reason.clone(),
            Error::TokioJoinError(reason) => reason.clone(),
            Error::Axum(reason) => reason.clone(),
        }
    }

    /// The status under which the error is answered where no page can be
    /// shown for it.
    pub fn status(&self) -> (status: u16)
        ensures
            status == NOT_FOUND,
    {
        NOT_FOUND
    }
}

} // verus!
