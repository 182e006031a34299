//! The library's error values.

use vstd::prelude::*;

verus! {

/// Why an operation of the request pipeline did not go through.
#[derive(Clone, Copy, Debug, PartialEq, Eq, Structural)]
pub enum HttpError {
    /// The text is not a URL.
    InvalidUrl,
    /// The URL names no host.
    NoHost,
    /// The URL gives no port and its scheme has no default one.
    NoPort,
    /// A body was written to a request whose method carries none.
    BodyNotAllowed,
    /// A response's status pseudo-header is missing or malformed.
    MalformedStatus,
    /// The scheme is known but its transport is not available.
    UnsupportedScheme,
    /// The scheme is neither `http` nor `https`.
    InvalidScheme,
}

} // verus!
