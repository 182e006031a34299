//! The parts of a request URL that the pipeline reads.

use vstd::prelude::*;
use crate::error::HttpError;

verus! {

/// A parsed URL, held as the ASCII text of its parts.
#[derive(Clone, Debug)]
pub struct Target {
    pub scheme: Vec<u8>,
    pub host: Option<Vec<u8>>,
    pub port: Option<u16>,
    pub path: Vec<u8>,
    pub query: Option<Vec<u8>>,
}

/// Whether the URL parser accepts `input`.
pub uninterp spec fn url_parses(input: Seq<char>) -> bool;

/// Relies on `url::Url::parse` to parse `input`, and on the accessors
/// `scheme`, `host_str`, `port_or_known_default`, `path` and `query` to take
/// the parsed URL apart; success depends on the text alone.
#[verifier::external_body]
fn parse_url(input: &str) -> (r: Option<Target>)
    ensures
        r.is_some() == url_parses(input@),
{
    match url::Url::parse(input) {
        Ok(u) => Some(Target {
            scheme: u.scheme().as_bytes().to_vec(),
            host: u.host_str().map(|h| h.as_bytes().to_vec()),
            port: u.port_or_known_default(),
            path: u.path().as_bytes().to_vec(),
            query: u.query().map(|q| q.as_bytes().to_vec()),
        }),
        Err(_) => None,
    }
}

impl Target {
    /// The request target that goes on the request line: the path, then `?`
    /// and the query when there is one.
    pub open spec fn spec_request_uri(&self) -> Seq<u8> {
        match self.query {
            Some(q) => self.path@ + seq![63u8] + q@,
            None => self.path@,
        }
    }

    /// Parses a URL.
    pub fn parse(input: &str) -> (r: Result<Target, HttpError>)
        ensures
            r.is_ok() == url_parses(input@),
            r.is_err() ==> r == Err::<Target, HttpError>(HttpError::InvalidUrl),
    {
        match parse_url(input) {
            Some(t) => Ok(t),
            None => Err(HttpError::InvalidUrl),
        }
    }

    /// The path, then `?` and the query when there is one.
    pub fn request_uri(&self) -> (r: Vec<u8>)
        ensures
            r@ == self.spec_request_uri(),
    {
        let mut out: Vec<u8> = Vec::new();
        crate::bytes::push_bytes(&mut out, self.path.as_slice());
        match &self.query {
            Some(q) => {
                out.push(63u8);
                crate::bytes::push_bytes(&mut out, q.as_slice());
            },
            None => {},
        }
        assert(out@ =~= self.spec_request_uri());
        out
    }
}

} // verus!
