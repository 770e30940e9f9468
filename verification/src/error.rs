//! The error taxonomy of the library. Only `EncodingError` can arise in
//! the signing core itself; the other kinds classify HTTP failures on
//! behalf of the surrounding transport layer.

use vstd::prelude::*;
use vstd::string::StringExecFns;

verus! {

/// OpenTokError enumerates all possible errors returned by this library.
#[derive(Debug, PartialEq)]
pub enum OpenTokError {
    BadRequest(String),
    EncodingError,
    ServerError(String),
    UnexpectedResponse(String),
    __Unknown,
}

/// The human-readable description of an error.
pub open spec fn error_message_chars(e: OpenTokError) -> Seq<char> {
    match e {
        OpenTokError::BadRequest(s) => "Bad request "@ + s@,
        OpenTokError::EncodingError => "Cannot encode request"@,
        OpenTokError::ServerError(s) => "OpenTok server error "@ + s@,
        OpenTokError::UnexpectedResponse(s) => "Unexpected response "@ + s@,
        OpenTokError::__Unknown => "Unknown error"@,
    }
}

impl OpenTokError {
    /// Renders the error as its human-readable message.
    pub fn message(&self) -> (r: String)
        ensures
            r@ == error_message_chars(*self),
    {
        match self {
            OpenTokError::BadRequest(s) => {
                let mut m = "Bad request ".to_owned();
                m.append(s.as_str());
                m
            },
            OpenTokError::EncodingError => "Cannot encode request".to_owned(),
            OpenTokError::ServerError(s) => {
                let mut m = "OpenTok server error ".to_owned();
                m.append(s.as_str());
                m
            },
            OpenTokError::UnexpectedResponse(s) => {
                let mut m = "Unexpected response ".to_owned();
                m.append(s.as_str());
                m
            },
            OpenTokError::__Unknown => "Unknown error".to_owned(),
        }
    }
}

/// Classifies a failed HTTP exchange by its status code: client errors
/// become `BadRequest`, server errors `ServerError`, anything else the
/// unknown error.
pub fn error_from_status(status: u16, message: String) -> (r: OpenTokError)
    ensures
        400 <= status <= 499 ==> (r matches OpenTokError::BadRequest(m) && m@ == message@),
        500 <= status <= 599 ==> (r matches OpenTokError::ServerError(m) && m@ == message@),
        !(400 <= status <= 599) ==> r == OpenTokError::__Unknown,
{
    if 400 <= status && status <= 499 {
        OpenTokError::BadRequest(message)
    } else if 500 <= status && status <= 599 {
        OpenTokError::ServerError(message)
    } else {
        OpenTokError::__Unknown
    }
}

} // verus!
