//! Request methods and protocol versions.

use vstd::prelude::*;

verus! {

/// The request method.
#[derive(Clone, Copy, Debug, PartialEq, Eq, Structural)]
pub enum Method {
    Options,
    Get,
    Post,
    Put,
    Delete,
    Head,
    Trace,
    Connect,
    Patch,
}

impl Method {
    /// The method's token as it stands on the request line.
    pub open spec fn token(self) -> Seq<u8> {
        match self {
            Method::Options => seq![79u8, 80, 84, 73, 79, 78, 83],  // OPTIONS
            Method::Get => seq![71u8, 69, 84],  // GET
            Method::Post => seq![80u8, 79, 83, 84],  // POST
            Method::Put => seq![80u8, 85, 84],  // PUT
            Method::Delete => seq![68u8, 69, 76, 69, 84, 69],  // DELETE
            Method::Head => seq![72u8, 69, 65, 68],  // HEAD
            Method::Trace => seq![84u8, 82, 65, 67, 69],  // TRACE
            Method::Connect => seq![67u8, 79, 78, 78, 69, 67, 84],  // CONNECT
            Method::Patch => seq![80u8, 65, 84, 67, 72],  // PATCH
        }
    }

    /// Methods whose requests carry no body.
    pub open spec fn forbids_body(self) -> bool {
        self == Method::Get || self == Method::Head
    }

    /// The method's token as bytes.
    pub fn as_bytes(&self) -> (r: Vec<u8>)
        ensures
            r@ == self.token(),
    {
        let r = match self {
            Method::Options => vec![79u8, 80, 84, 73, 79, 78, 83],  // OPTIONS
            Method::Get => vec![71u8, 69, 84],  // GET
            Method::Post => vec![80u8, 79, 83, 84],  // POST
            Method::Put => vec![80u8, 85, 84],  // PUT
            Method::Delete => vec![68u8, 69, 76, 69, 84, 69],  // DELETE
            Method::Head => vec![72u8, 69, 65, 68],  // HEAD
            Method::Trace => vec![84u8, 82, 65, 67, 69],  // TRACE
            Method::Connect => vec![67u8, 79, 78, 78, 69, 67, 84],  // CONNECT
            Method::Patch => vec![80u8, 65, 84, 67, 72],  // PATCH
        };
        assert(r@ =~= self.token());
        r
    }
}

/// The protocol version named on the request line.
#[derive(Clone, Copy, Debug, PartialEq, Eq, Structural)]
pub enum HttpVersion {
    Http09,
    Http10,
    Http11,
    Http20,
}

impl HttpVersion {
    /// The version as it stands on the request line.
    pub open spec fn token(self) -> Seq<u8> {
        match self {
            HttpVersion::Http09 => seq![72u8, 84, 84, 80, 47, 48, 46, 57],  // HTTP/0.9
            HttpVersion::Http10 => seq![72u8, 84, 84, 80, 47, 49, 46, 48],  // HTTP/1.0
            HttpVersion::Http11 => seq![72u8, 84, 84, 80, 47, 49, 46, 49],  // HTTP/1.1
            HttpVersion::Http20 => seq![72u8, 84, 84, 80, 47, 50, 46, 48],  // HTTP/2.0
        }
    }

    /// The version's token as bytes.
    pub fn as_bytes(&self) -> (r: Vec<u8>)
        ensures
            r@ == self.token(),
    {
        let r = match self {
            HttpVersion::Http09 => vec![72u8, 84, 84, 80, 47, 48, 46, 57],  // HTTP/0.9
            HttpVersion::Http10 => vec![72u8, 84, 84, 80, 47, 49, 46, 48],  // HTTP/1.0
            HttpVersion::Http11 => vec![72u8, 84, 84, 80, 47, 49, 46, 49],  // HTTP/1.1
            HttpVersion::Http20 => vec![72u8, 84, 84, 80, 47, 50, 46, 48],  // HTTP/2.0
        };
        assert(r@ =~= self.token());
        r
    }
}

} // verus!
