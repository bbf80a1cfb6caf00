//! The failures that reach a caller.

use vstd::prelude::*;
use vstd::string::StringExecFns;

verus! {

/// A failure of a call to the remote service, or of the configuration.
#[derive(Debug)]
pub enum Error {
    /// The access token is not set or is empty.
    MissingToken,
    /// The access token holds characters a header cannot carry.
    InvalidToken,
    /// The connection or the protocol failed; the text says how.
    Http(String),
    /// A response did not have the expected shape; the text says how.
    Parse(String),
    /// The service answered with an error status other than not-found.
    Api { message: String },
    /// The service answered not-found.
    NotFound(String),
    /// Containers nest deeper than the recorded responses allow, which only a
    /// cycle in the container graph can cause; the text names the container.
    Cyclic(String),
}

/// The model of an [`Error`].
pub enum ErrorV {
    MissingToken,
    InvalidToken,
    Http(Seq<char>),
    Parse(Seq<char>),
    Api(Seq<char>),
    NotFound(Seq<char>),
    Cyclic(Seq<char>),
}

impl View for Error {
    type V = ErrorV;

    open spec fn view(&self) -> ErrorV {
        match self {
            Error::MissingToken => ErrorV::MissingToken,
            Error::InvalidToken => ErrorV::InvalidToken,
            Error::Http(s) => ErrorV::Http(s@),
            Error::Parse(s) => ErrorV::Parse(s@),
            Error::Api { message } => ErrorV::Api(message@),
            Error::NotFound(s) => ErrorV::NotFound(s@),
            Error::Cyclic(s) => ErrorV::Cyclic(s@),
        }
    }
}

/// The text that describes an error to a person.
pub open spec fn error_text(e: ErrorV) -> Seq<char> {
    match e {
        ErrorV::MissingToken => "ASANA_TOKEN environment variable is not set"@,
        ErrorV::InvalidToken => "invalid token format"@,
        ErrorV::Http(s) => "HTTP error: "@ + s,
        ErrorV::Parse(s) => "failed to parse response: "@ + s,
        ErrorV::Api(s) => "API error: "@ + s,
        ErrorV::NotFound(s) => "resource not found: "@ + s,
        ErrorV::Cyclic(s) => "container graph is cyclic at "@ + s,
    }
}

/// `prefix` followed by `rest`, as a new string.
pub fn join2(prefix: &str, rest: &str) -> (r: String)
    ensures
        r@ == prefix@ + rest@,
{
    let mut s = String::from_str(prefix);
    s.append(rest);
    s
}

impl Error {
    /// The text that describes this error to a person.
    pub fn message(&self) -> (r: String)
        ensures
            r@ == error_text(self@),
    {
        match self {
            Error::MissingToken => String::from_str("ASANA_TOKEN environment variable is not set"),
            Error::InvalidToken => String::from_str("invalid token format"),
            Error::Http(s) => join2("HTTP error: ", s.as_str()),
            Error::Parse(s) => join2("failed to parse response: ", s.as_str()),
            Error::Api { message } => join2("API error: ", message.as_str()),
            Error::NotFound(s) => join2("resource not found: ", s.as_str()),
            Error::Cyclic(s) => join2("container graph is cyclic at ", s.as_str()),
        }
    }

    /// An equal error, held apart from this one.
    pub fn copy(&self) -> (r: Error)
        ensures
            r@ == self@,
    {
        match self {
            Error::MissingToken => Error::MissingToken,
            Error::InvalidToken => Error::InvalidToken,
            Error::Http(s) => Error::Http(s.clone()),
            Error::Parse(s) => Error::Parse(s.clone()),
            Error::Api { message } => Error::Api { message: message.clone() },
            Error::NotFound(s) => Error::NotFound(s.clone()),
            Error::Cyclic(s) => Error::Cyclic(s.clone()),
        }
    }
}

} // verus!
