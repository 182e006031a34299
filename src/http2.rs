//! The HTTP/2 side: the request lifecycle mapped onto multiplexed streams,
//! and reconstruction of a response from the session's raw header list and
//! body.

use vstd::prelude::*;
use std::marker::PhantomData;
use crate::error::HttpError;
use crate::header::{lemma_index_range, with_values, FieldView, Headers};
use crate::method::Method;
use crate::request::{Fresh, HttpRequest, Streaming};
use crate::target::Target;

verus! {

/// A raw header list entry as the contracts see it.
pub type RawField = (Seq<u8>, Seq<u8>);

/// The contents of a raw header list.
pub open spec fn raw_fields(raw: Seq<(Vec<u8>, Vec<u8>)>) -> Seq<RawField> {
    raw.map_values(|f: (Vec<u8>, Vec<u8>)| (f.0@, f.1@))
}

/// `:status`
pub open spec fn status_name() -> Seq<u8> {
    seq![58u8, 115, 116, 97, 116, 117, 115]
}

/// A pseudo-header's name begins with a colon.
pub open spec fn is_pseudo(name: Seq<u8>) -> bool {
    name.len() > 0 && name[0] == 58
}

/// The value of a three-digit status code whose first digit is 1 to 5.
pub open spec fn status_digits(v: Seq<u8>) -> Option<u16> {
    if v.len() == 3 && 49 <= v[0] <= 53 && 48 <= v[1] <= 57 && 48 <= v[2] <= 57 {
        Some((100 * (v[0] - 48) + 10 * (v[1] - 48) + (v[2] - 48)) as u16)
    } else {
        None
    }
}

/// The status of a response: the first entry must be `:status` with a valid
/// three-digit code.
pub open spec fn status_of(raw: Seq<RawField>) -> Option<u16> {
    if raw.len() >= 1 && raw[0].0 == status_name() {
        status_digits(raw[0].1)
    } else {
        None
    }
}

/// The fields that a raw header list gives: pseudo-headers are skipped and
/// each other entry sets its name to its one value, in order.
pub open spec fn fields_from_raw(raw: Seq<RawField>) -> Seq<FieldView>
    decreases raw.len(),
{
    if raw.len() == 0 {
        Seq::empty()
    } else {
        let prev = fields_from_raw(raw.drop_last());
        if is_pseudo(raw.last().0) {
            prev
        } else {
            with_values(prev, raw.last().0, seq![raw.last().1])
        }
    }
}

/// Relies on solicit's `Response::status_code`, which reads the status from
/// the first header of the list (`:status`, three digits, the first 1 to 5).
#[verifier::external_body]
fn solicit_status(headers: &Vec<(Vec<u8>, Vec<u8>)>) -> (r: Option<u16>)
    ensures
        r == status_of(raw_fields(headers@)),
{
    solicit::http::Response::new(0, headers.clone(), Vec::new()).status_code().ok()
}

/// No field that a response carries is a pseudo-header.
pub proof fn law_no_pseudo_fields(raw: Seq<RawField>)
    ensures
        forall|i: int|
            0 <= i < fields_from_raw(raw).len() ==> !is_pseudo(#[trigger] fields_from_raw(raw)[i].0),
    decreases raw.len(),
{
    if raw.len() > 0 {
        let prev = fields_from_raw(raw.drop_last());
        law_no_pseudo_fields(raw.drop_last());
        lemma_index_range(prev, raw.last().0);
    }
}

/// Which transport a scheme selects.
#[derive(Clone, Copy, Debug, PartialEq, Eq, Structural)]
pub enum Http2Transport {
    Cleartext,
    Tls,
}

/// `http`
pub open spec fn http_scheme() -> Seq<u8> {
    seq![104u8, 116, 116, 112]
}

/// `https`
pub open spec fn https_scheme() -> Seq<u8> {
    seq![104u8, 116, 116, 112, 115]
}

fn bytes_equal(a: &[u8], b: &[u8]) -> (r: bool)
    ensures
        r == (a@ == b@),
{
    if a.len() != b.len() {
        return false;
    }
    let mut i: usize = 0;
    while i < a.len()
        invariant
            a.len() == b.len(),
            0 <= i <= a.len(),
            forall|k: int| 0 <= k < i ==> a@[k] == b@[k],
        decreases a.len() - i,
    {
        if a[i] != b[i] {
            return false;
        }
        i = i + 1;
    }
    assert(a@ =~= b@);
    true
}

/// The session a scheme calls for: `http` selects the cleartext one;
/// `https` is recognised but its transport is not available; anything else
/// is refused.
pub fn transport_for(scheme: &[u8]) -> (r: Result<Http2Transport, HttpError>)
    ensures
        scheme@ == http_scheme() ==> r == Ok::<Http2Transport, HttpError>(Http2Transport::Cleartext),
        scheme@ == https_scheme() ==> r == Err::<Http2Transport, HttpError>(
            HttpError::UnsupportedScheme,
        ),
        scheme@ != http_scheme() && scheme@ != https_scheme() ==> r == Err::<
            Http2Transport,
            HttpError,
        >(HttpError::InvalidScheme),
{
    let http = vec![104u8, 116, 116, 112];
    let https = vec![104u8, 116, 116, 112, 115];
    assert(http@ =~= http_scheme());
    assert(https@ =~= https_scheme());
    if bytes_equal(scheme, http.as_slice()) {
        Ok(Http2Transport::Cleartext)
    } else if bytes_equal(scheme, https.as_slice()) {
        Err(HttpError::UnsupportedScheme)
    } else {
        Err(HttpError::InvalidScheme)
    }
}

/// A request carried on one stream of an HTTP/2 session, in phase `W`.
pub struct Http2Request<W> {
    headers: Headers,
    stream_id: Option<u32>,
    method: Method,
    url: Target,
    marker: PhantomData<W>,
}

impl<W> Http2Request<W> {
    pub closed spec fn spec_method(&self) -> Method {
        self.method
    }

    pub closed spec fn spec_url(&self) -> Target {
        self.url
    }

    pub closed spec fn spec_headers(&self) -> Seq<FieldView> {
        self.headers@
    }

    pub closed spec fn spec_stream_id(&self) -> Option<u32> {
        self.stream_id
    }

    /// The stream the request was sent on, once started.
    pub fn stream_id(&self) -> (r: Option<u32>)
        ensures
            r == self.spec_stream_id(),
    {
        self.stream_id
    }

    /// Reads the fields.
    pub fn headers(&self) -> (r: &Headers)
        ensures
            r@ == self.spec_headers(),
    {
        &self.headers
    }

    /// Reads the method.
    pub fn method(&self) -> (r: Method)
        ensures
            r == self.spec_method(),
    {
        self.method
    }
}

impl Http2Request<Fresh> {
    /// A request not yet sent.
    pub fn new(method: Method, url: Target) -> (r: Http2Request<Fresh>)
        ensures
            r.spec_method() == method,
            r.spec_url() == url,
            r.spec_headers() == Seq::<FieldView>::empty(),
            r.spec_stream_id().is_none(),
    {
        Http2Request { headers: Headers::new(), stream_id: None, method, url, marker: PhantomData }
    }

    /// Mutable access to the fields before the request is sent.
    pub fn headers_mut(&mut self) -> (r: &mut Headers)
        ensures
            r@ == old(self).spec_headers(),
            final(self).spec_headers() == final(r)@,
            final(self).spec_method() == old(self).spec_method(),
            final(self).spec_url() == old(self).spec_url(),
            final(self).spec_stream_id() == old(self).spec_stream_id(),
    {
        &mut self.headers
    }

    /// What the session is asked to open a stream with: the method's token
    /// and the path with its query.
    pub fn request_head(&self) -> (r: (Vec<u8>, Vec<u8>))
        ensures
            r.0@ == self.spec_method().token(),
            r.1@ == self.spec_url().spec_request_uri(),
    {
        (self.method.as_bytes(), self.url.request_uri())
    }

    /// Records the stream that the session opened for this request.
    pub fn start(self, stream_id: u32) -> (r: Http2Request<Streaming>)
        ensures
            r.spec_stream_id() == Some(stream_id),
            r.spec_method() == self.spec_method(),
            r.spec_url() == self.spec_url(),
            r.spec_headers() == self.spec_headers(),
    {
        Http2Request {
            headers: self.headers,
            stream_id: Some(stream_id),
            method: self.method,
            url: self.url,
            marker: PhantomData,
        }
    }
}

/// A response read in full from one stream.
pub struct Http2Response {
    pub stream_id: u32,
    pub headers: Headers,
    pub status: u16,
    pub body: Vec<u8>,
    /// How far the body has been read.
    pub position: usize,
}

impl Http2Response {
    /// Builds the response from what the session returned for a stream:
    /// the status from the `:status` pseudo-header, the other fields in
    /// order (a repeated name keeps its last value), and the body. Fails
    /// when the status is missing or malformed.
    pub fn new(stream_id: u32, raw: Vec<(Vec<u8>, Vec<u8>)>, body: Vec<u8>) -> (r: Result<
        Http2Response,
        HttpError,
    >)
        ensures
            status_of(raw_fields(raw@)).is_none() ==> r == Err::<Http2Response, HttpError>(
                HttpError::MalformedStatus,
            ),
            status_of(raw_fields(raw@)).is_some() ==> r.is_ok(),
            r matches Ok(resp) ==> {
                &&& resp.stream_id == stream_id
                &&& Some(resp.status) == status_of(raw_fields(raw@))
                &&& resp.headers@ == fields_from_raw(raw_fields(raw@))
                &&& resp.body@ == body@
                &&& resp.position == 0
            },
    {
        let status = match solicit_status(&raw) {
            Some(s) => s,
            None => return Err(HttpError::MalformedStatus),
        };
        let mut headers = Headers::new();
        let mut i: usize = 0;
        while i < raw.len()
            invariant
                0 <= i <= raw@.len(),
                headers@ == fields_from_raw(raw_fields(raw@).subrange(0, i as int)),
            decreases raw@.len() - i,
        {
            let ghost pre = raw_fields(raw@).subrange(0, i as int + 1);
            assert(pre.drop_last() =~= raw_fields(raw@).subrange(0, i as int));
            let name = &raw[i].0;
            if name.len() == 0 || name[0] != 58u8 {
                let values = vec![raw[i].1.clone()];
                assert(crate::header::byte_strings(values@) =~= seq![raw@[i as int].1@]);
                headers.set_raw(name.clone(), values);
            }
            i = i + 1;
        }
        assert(raw_fields(raw@).subrange(0, raw@.len() as int) =~= raw_fields(raw@));
        Ok(Http2Response { stream_id, headers, status, body, position: 0 })
    }

    /// The whole body.
    pub fn body(&self) -> (r: &Vec<u8>)
        ensures
            r@ == self.body@,
    {
        &self.body
    }

    /// Reads up to `n` body bytes from the current position on, and moves
    /// past them; at the end of the body nothing more comes.
    pub fn read(&mut self, n: usize) -> (r: Vec<u8>)
        ensures
            ({
                let len = old(self).body@.len();
                let from = if old(self).position <= len { old(self).position as int } else { len as int };
                let to = if from + n <= len { from + n } else { len as int };
                &&& r@ == old(self).body@.subrange(from, to)
                &&& final(self).position == to
                &&& final(self).body == old(self).body
                &&& final(self).headers == old(self).headers
                &&& final(self).status == old(self).status
                &&& final(self).stream_id == old(self).stream_id
            }),
    {
        let len = self.body.len();
        let from = if self.position <= len { self.position } else { len };
        let to = if n <= len - from { from + n } else { len };
        let mut out: Vec<u8> = Vec::new();
        let mut i: usize = from;
        while i < to
            invariant
                from <= i <= to <= len,
                len == self.body@.len(),
                out@ == self.body@.subrange(from as int, i as int),
            decreases to - i,
        {
            out.push(self.body[i]);
            i = i + 1;
            assert(out@ =~= self.body@.subrange(from as int, i as int));
        }
        self.position = to;
        out
    }

    /// Moves the read position to `pos`, or to the end when `pos` lies past it.
    pub fn seek(&mut self, pos: usize) -> (r: usize)
        ensures
            r == if pos <= old(self).body@.len() { pos } else { old(self).body@.len() as usize },
            final(self).position == r,
            final(self).body == old(self).body,
            final(self).headers == old(self).headers,
            final(self).status == old(self).status,
            final(self).stream_id == old(self).stream_id,
    {
        let len = self.body.len();
        self.position = if pos <= len { pos } else { len };
        self.position
    }
}

impl<W> HttpRequest for Http2Request<W> {
    open spec fn request_method(&self) -> Method {
        self.spec_method()
    }

    open spec fn request_headers(&self) -> Seq<FieldView> {
        self.spec_headers()
    }

    fn headers(&self) -> (r: &Headers) {
        Http2Request::<W>::headers(self)
    }

    fn method(&self) -> (r: Method) {
        Http2Request::<W>::method(self)
    }
}

} // verus!
