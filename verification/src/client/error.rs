use vstd::prelude::*;
use vstd::string::*;

verus! {

/// What the transport reported of a request that got no success status.
#[derive(Clone, Debug)]
pub struct RequestError {
    /// The status code, where the server answered at all.
    pub status: Option<u16>,
    /// The transport's own words.
    pub description: String,
}

/// The errors of this library.
#[derive(Debug)]
pub enum Error {
    /// The answer could not be read.
    IO(String),
    /// The transport failed, or the server answered with an error status.
    Request(RequestError),
    /// A part of an answer did not have the expected shape.
    Deserialization(String),
    /// Any other failure, in words.
    Message(&'static str),
    /// The answer lacks the named thing.
    NotFound(&'static str),
    /// Signing in failed, for the given reason.
    SignIn(&'static str),
}

/// An [`Error`] as a mathematical value.
pub ghost enum ErrorView {
    IO(Seq<char>),
    Request(Option<u16>, Seq<char>),
    Deserialization(Seq<char>),
    Message(Seq<char>),
    NotFound(Seq<char>),
    SignIn(Seq<char>),
}

impl View for Error {
    type V = ErrorView;

    open spec fn view(&self) -> ErrorView {
        match *self {
            Error::IO(m) => ErrorView::IO(m@),
            Error::Request(r) => ErrorView::Request(r.status, r.description@),
            Error::Deserialization(m) => ErrorView::Deserialization(m@),
            Error::Message(m) => ErrorView::Message(m@),
            Error::NotFound(item) => ErrorView::NotFound(item@),
            Error::SignIn(reason) => ErrorView::SignIn(reason@),
        }
    }
}

impl ErrorView {
    /// The sentence that describes the error.
    pub open spec fn text(self) -> Seq<char> {
        match self {
            ErrorView::IO(m) => m,
            ErrorView::Request(_, m) => m,
            ErrorView::Deserialization(m) => m,
            ErrorView::Message(m) => m,
            ErrorView::NotFound(item) => "Could not find "@ + item + "."@,
            ErrorView::SignIn(reason) => "Could not sign in. "@ + reason + "."@,
        }
    }

    /// The status code that the server answered with, if the error is one of
    /// the transport and the server answered.
    pub open spec fn status(self) -> Option<u16> {
        match self {
            ErrorView::Request(status, _) => status,
            _ => None,
        }
    }
}

impl Error {
    /// The sentence that describes the error.
    pub fn to_string(&self) -> (s: String)
        ensures
            s@ == self@.text(),
    {
        match self {
            Error::IO(m) => m.clone(),
            Error::Request(r) => r.description.clone(),
            Error::Deserialization(m) => m.clone(),
            Error::Message(m) => String::from_str(m),
            Error::NotFound(item) => String::from_str("Could not find ").concat(item).concat("."),
            Error::SignIn(reason) => String::from_str("Could not sign in. ").concat(reason).concat(
                ".",
            ),
        }
    }

    /// The status code that the server answered with, if the error is one of
    /// the transport and the server answered.
    pub fn status(&self) -> (status: Option<u16>)
        ensures
            status == self@.status(),
    {
        match self {
            Error::Request(r) => r.status,
            _ => None,
        }
    }
}

/// Hands on what was found, or says that the named thing is missing.
pub fn found_or<T>(found: Option<T>, item: &'static str) -> (res: Result<T, Error>)
    ensures
        match found {
            Some(v) => res == Ok::<T, Error>(v),
            None => res matches Err(e) && e@ == ErrorView::NotFound(item@),
        },
{
    match found {
        Some(v) => Ok(v),
        None => Err(Error::NotFound(item)),
    }
}

} // verus!
