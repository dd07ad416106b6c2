//! Error taxonomy of the library.
//!
//! Transport, storage and tool failures that reach the library's logic are
//! carried as plain messages; the kind tells callers which stage failed.

use vstd::prelude::*;

verus! {

/// The failure kinds the system distinguishes.
#[derive(Debug)]
pub enum ErrorKind {
    /// No XSRF token is available for an authenticated request.
    XsrfTokenMissing,
    /// The request for a fresh XSRF token failed in transport.
    XsrfTokenRequestFailed(String),
    /// The token endpoint answered without an XSRF cookie.
    InvalidXsrfToken,
    /// Percent-decoding of the XSRF cookie value failed.
    UrlDecodeError,
    /// A remote payload could not be deserialized.
    JsonDeserializationFailed(String),
    /// A request body could not be serialized.
    JsonSerializationFailed(String),
    /// The remote answered with an unexpected shape (malformed record).
    ApiError(String),
    /// The HTTP client could not be constructed.
    HttpClientFailed(String),
    /// An HTTP request failed.
    HttpRequestFailed(String),
    /// A store statement failed (missing row, violated key).
    DatabaseError(String),
    /// The external acquisition tool could not be started.
    YouTubeDlError(String),
}

/// Library error: a single kind, carried by value.
#[derive(Debug)]
pub struct Error {
    pub kind: ErrorKind,
}

impl From<ErrorKind> for Error {
    fn from(kind: ErrorKind) -> (e: Error) {
        Error { kind }
    }
}

impl vstd::std_specs::convert::FromSpecImpl<ErrorKind> for Error {
    open spec fn obeys_from_spec() -> bool {
        true
    }

    open spec fn from_spec(kind: ErrorKind) -> Error {
        Error { kind }
    }
}

} // verus!
