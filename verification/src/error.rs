//! The failures that end a synchronisation.

use vstd::prelude::*;
use crate::text::{signed_decimal, signed_decimal_string};

verus! {

/// Why a synchronisation stopped: a failure that this library found, one
/// of the transport, or one of the store. The latter two carry the text of
/// what the collaborator reported.
#[derive(Clone, Debug, PartialEq, Eq)]
pub enum Error {
    Error(String),
    RqError(String),
    PgError(String),
}

/// What a failure holds.
pub enum ErrorView {
    Error(Seq<char>),
    RqError(Seq<char>),
    PgError(Seq<char>),
}

impl View for Error {
    type V = ErrorView;

    open spec fn view(&self) -> ErrorView {
        match *self {
            Error::Error(message) => ErrorView::Error(message@),
            Error::RqError(message) => ErrorView::RqError(message@),
            Error::PgError(message) => ErrorView::PgError(message@),
        }
    }
}

/// A message followed by the code that the remote reported.
pub open spec fn coded_message(message: Seq<char>, code: int) -> Seq<char> {
    message + " [code: "@ + signed_decimal(code) + "]"@
}

impl Error {
    /// The text that the failure carries.
    pub open spec fn text(self) -> Seq<char> {
        match self {
            Error::Error(message) => message@,
            Error::RqError(message) => message@,
            Error::PgError(message) => message@,
        }
    }

    /// A failure of this library with the given message.
    pub fn new(message: String) -> (r: Self)
        ensures
            r == Error::Error(message),
    {
        Error::Error(message)
    }

    /// A failure of this library whose message ends with a code.
    pub fn new_with_code(message: &str, code: i32) -> (r: Self)
        ensures
            r@ == ErrorView::Error(coded_message(message@, code as int)),
    {
        let mut text: String = String::from_str(message);
        let digits: String = signed_decimal_string(code);
        text.append(" [code: ");
        text.append(digits.as_str());
        text.append("]");
        Error::Error(text)
    }

    /// The text that the failure carries.
    pub fn message(&self) -> (r: &str)
        ensures
            r@ == self.text(),
    {
        match self {
            Error::Error(message) => message.as_str(),
            Error::RqError(message) => message.as_str(),
            Error::PgError(message) => message.as_str(),
        }
    }
}

} // verus!
