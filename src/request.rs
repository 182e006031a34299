//! Client requests: a typestate lifecycle from `Fresh` (head still editable)
//! to `Streaming` (head written, body bytes framed) to the finished bytes.

use vstd::prelude::*;
use std::marker::PhantomData;
use crate::bytes::{crlf, push_bytes, push_crlf};
use crate::error::HttpError;
use crate::header::{
    chunked_bytes, chunked_token, content_length_name, content_length_of, fields_bytes, host_bytes,
    host_name, index_of, lemma_absent, lemma_index_push, lemma_index_range, lemma_index_update,
    same_name, transfer_encoding_bytes, transfer_encoding_name, values_of, with_appended,
    with_values, FieldView, Headers,
};
use crate::method::{HttpVersion, Method};
use crate::numeral::{decimal, format_decimal, format_hex, hex, lemma_parse_decimal_round_trip};
use crate::target::Target;

verus! {

/// Phase of a request whose head can still be changed.
pub struct Fresh;

/// Phase of a request whose head has been written.
pub struct Streaming;

/// How the body bytes of a request are framed on the wire.
#[derive(Clone, Copy, Debug, PartialEq, Eq, Structural)]
pub enum BodyWriter {
    /// Before the head is written: bytes pass unframed.
    Through,
    /// No body is allowed; writes are refused.
    Empty,
    /// A body of the given length; writes pass unframed.
    Sized(u64),
    /// Each write becomes one chunk; the end is a zero-length chunk.
    Chunked,
}

/// The value of the `Host` field: the host, with `:port` unless the port is
/// 80 or 443.
pub open spec fn host_value(host: Seq<u8>, port: u16) -> Seq<u8> {
    if port == 80 || port == 443 {
        host
    } else {
        host + seq![58u8] + decimal(port as nat)
    }
}

/// The framing that a method and the head's fields select.
pub open spec fn framing_for(m: Method, h: Seq<FieldView>) -> BodyWriter {
    if m.forbids_body() {
        BodyWriter::Empty
    } else {
        match content_length_of(h) {
            Some(n) => BodyWriter::Sized(n),
            None => BodyWriter::Chunked,
        }
    }
}

/// The fields once the request is started: a chunked body adds `chunked` to
/// `Transfer-Encoding`, or sets the field to it when absent.
pub open spec fn started_headers(m: Method, h: Seq<FieldView>) -> Seq<FieldView> {
    if framing_for(m, h) == BodyWriter::Chunked {
        with_appended(h, transfer_encoding_name(), chunked_token())
    } else {
        h
    }
}

/// The request line: `METHOD uri VERSION` and a line end.
pub open spec fn request_line(m: Method, uri: Seq<u8>, v: HttpVersion) -> Seq<u8> {
    m.token() + seq![32u8] + uri + seq![32u8] + v.token() + crlf()
}

/// A whole head: request line, fields, blank line.
pub open spec fn head_bytes(m: Method, uri: Seq<u8>, v: HttpVersion, h: Seq<FieldView>) -> Seq<u8> {
    request_line(m, uri, v) + fields_bytes(h) + crlf()
}

/// One chunk as it stands on the wire; an empty write puts nothing there, as
/// a zero-length chunk would end the body.
pub open spec fn chunk_frame(data: Seq<u8>) -> Seq<u8> {
    if data.len() == 0 {
        Seq::empty()
    } else {
        hex(data.len()) + crlf() + data + crlf()
    }
}

/// What a write through `framing` puts on the wire.
pub open spec fn framed(framing: BodyWriter, data: Seq<u8>) -> Seq<u8> {
    match framing {
        BodyWriter::Empty => Seq::empty(),
        BodyWriter::Chunked => chunk_frame(data),
        _ => data,
    }
}

/// `0` CRLF CRLF: the chunk that ends a chunked body.
pub open spec fn last_chunk() -> Seq<u8> {
    seq![48u8, 13, 10, 13, 10]
}

/// What finishing a body framed by `framing` puts on the wire.
pub open spec fn terminator(framing: BodyWriter) -> Seq<u8> {
    if framing == BodyWriter::Chunked {
        last_chunk()
    } else {
        Seq::empty()
    }
}

/// A GET or HEAD request whose caller set neither `Content-Length` nor
/// `Transfer-Encoding` is started with neither field in its head, and no
/// write puts a byte on the wire.
pub proof fn law_bodyless_methods(m: Method, h: Seq<FieldView>, data: Seq<u8>)
    requires
        m.forbids_body(),
        index_of(h, content_length_name()) == -1,
        index_of(h, transfer_encoding_name()) == -1,
    ensures
        framing_for(m, h) == BodyWriter::Empty,
        started_headers(m, h) == h,
        forall|i: int|
            0 <= i < started_headers(m, h).len() ==> !same_name(
                #[trigger] started_headers(m, h)[i].0,
                content_length_name(),
            ) && !same_name(started_headers(m, h)[i].0, transfer_encoding_name()),
        framed(framing_for(m, h), data) == Seq::<u8>::empty(),
{
    lemma_absent(h, content_length_name());
    lemma_absent(h, transfer_encoding_name());
}

/// A request with a body whose `Content-Length` states `n` is framed as a
/// body of `n` bytes, and its fields are left as they were.
pub proof fn law_stated_length(m: Method, h: Seq<FieldView>, n: u64)
    requires
        !m.forbids_body(),
        content_length_of(h) == Some(n),
    ensures
        framing_for(m, h) == BodyWriter::Sized(n),
        started_headers(m, h) == h,
{
}

/// Setting `Content-Length: n` on a request with a body makes it framed as a
/// body of `n` bytes, with no `Transfer-Encoding` added.
pub proof fn law_set_length_sizes(m: Method, h: Seq<FieldView>, n: u64)
    requires
        !m.forbids_body(),
    ensures
        framing_for(m, with_values(h, content_length_name(), seq![decimal(n as nat)]))
            == BodyWriter::Sized(n),
        started_headers(m, with_values(h, content_length_name(), seq![decimal(n as nat)]))
            == with_values(h, content_length_name(), seq![decimal(n as nat)]),
{
    let vs = seq![decimal(n as nat)];
    let g = with_values(h, content_length_name(), vs);
    lemma_index_range(h, content_length_name());
    lemma_parse_decimal_round_trip(n);
    let i = index_of(h, content_length_name());
    if i >= 0 {
        lemma_index_update(h, content_length_name(), i, vs);
    } else {
        lemma_index_push(h, content_length_name(), (content_length_name(), vs));
    }
    assert(content_length_of(g) == Some(n));
}

/// A request with a body, without `Content-Length` or `Transfer-Encoding`,
/// gets `Transfer-Encoding: chunked` exactly; each non-empty write becomes
/// one chunk prefixed by its length in hex, and the end is the zero chunk.
pub proof fn law_chunked_default(m: Method, h: Seq<FieldView>, data: Seq<u8>)
    requires
        !m.forbids_body(),
        content_length_of(h).is_none(),
        index_of(h, transfer_encoding_name()) == -1,
    ensures
        framing_for(m, h) == BodyWriter::Chunked,
        values_of(started_headers(m, h), transfer_encoding_name()) == Some(seq![chunked_token()]),
        data.len() > 0 ==> framed(framing_for(m, h), data) == hex(data.len()) + crlf() + data
            + crlf(),
        terminator(framing_for(m, h)) == last_chunk(),
{
    lemma_index_push(h, transfer_encoding_name(), (transfer_encoding_name(), seq![chunked_token()]));
}

/// Writes the head of a request to `wire` and settles its body framing; a
/// chunked body adds `chunked` to the fields first.
pub fn write_head(
    method: Method,
    uri: &[u8],
    version: HttpVersion,
    headers: &mut Headers,
    wire: &mut Vec<u8>,
) -> (r: BodyWriter)
    ensures
        r == framing_for(method, old(headers)@),
        final(headers)@ == started_headers(method, old(headers)@),
        final(wire)@ == old(wire)@ + head_bytes(method, uri@, version, final(headers)@),
{
    push_bytes(wire, method.as_bytes().as_slice());
    wire.push(32u8);
    push_bytes(wire, uri);
    wire.push(32u8);
    push_bytes(wire, version.as_bytes().as_slice());
    push_crlf(wire);
    let framing = match method {
        Method::Get | Method::Head => BodyWriter::Empty,
        _ => match headers.content_length() {
            Some(n) => BodyWriter::Sized(n),
            None => {
                headers.append_raw(transfer_encoding_bytes(), chunked_bytes());
                BodyWriter::Chunked
            },
        },
    };
    push_bytes(wire, headers.to_bytes().as_slice());
    push_crlf(wire);
    assert(wire@ =~= old(wire)@ + head_bytes(method, uri@, version, headers@));
    framing
}

/// A client request in phase `W`.
pub struct Request<W> {
    /// The target URL.
    pub url: Target,
    /// The protocol version of the request line.
    pub version: HttpVersion,
    body: BodyWriter,
    wire: Vec<u8>,
    headers: Headers,
    method: Method,
    marker: PhantomData<W>,
}

impl<W> Request<W> {
    /// The fields of the head.
    pub closed spec fn spec_headers(&self) -> Seq<FieldView> {
        self.headers@
    }

    /// The request method.
    pub closed spec fn spec_method(&self) -> Method {
        self.method
    }

    /// The target URL.
    pub closed spec fn spec_url(&self) -> Target {
        self.url
    }

    /// The protocol version.
    pub closed spec fn spec_version(&self) -> HttpVersion {
        self.version
    }

    /// The active framing.
    pub closed spec fn framing(&self) -> BodyWriter {
        self.body
    }

    /// Everything handed to the transport so far, in order.
    pub closed spec fn sent(&self) -> Seq<u8> {
        self.wire@
    }

    /// Reads the head's fields.
    pub fn headers(&self) -> (r: &Headers)
        ensures
            r@ == self.spec_headers(),
    {
        &self.headers
    }

    /// Reads the method.
    pub fn method(&self) -> (r: Method)
        ensures
            r == self.spec_method(),
    {
        self.method
    }

    /// The active framing.
    pub fn framing_kind(&self) -> (r: BodyWriter)
        ensures
            r == self.framing(),
    {
        self.body
    }

    /// The bytes handed to the transport so far.
    pub fn written(&self) -> (r: &Vec<u8>)
        ensures
            r@ == self.sent(),
    {
        &self.wire
    }
}

impl Request<Fresh> {
    /// A new request to `url`, with the `Host` field set from the URL's host
    /// and port. Fails when the URL names no host, or no port and none is
    /// known for its scheme.
    pub fn new(method: Method, url: Target) -> (r: Result<Request<Fresh>, HttpError>)
        ensures
            url.host.is_none() ==> r == Err::<Request<Fresh>, HttpError>(HttpError::NoHost),
            url.host.is_some() && url.port.is_none() ==> r == Err::<Request<Fresh>, HttpError>(
                HttpError::NoPort,
            ),
            url.host.is_some() && url.port.is_some() ==> r.is_ok(),
            r matches Ok(req) ==> {
                &&& req.spec_method() == method
                &&& req.spec_url() == url
                &&& req.spec_version() == HttpVersion::Http11
                &&& req.framing() == BodyWriter::Through
                &&& req.sent() == Seq::<u8>::empty()
                &&& req.spec_headers() == seq![
                    (host_name(), seq![host_value(url.host.unwrap()@, url.port.unwrap())]),
                ]
            },
    {
        let host = match &url.host {
            Some(h) => h.clone(),
            None => return Err(HttpError::NoHost),
        };
        let port = match url.port {
            Some(p) => p,
            None => return Err(HttpError::NoPort),
        };
        assert(host@ == url.host.unwrap()@);
        let mut value = host;
        if port != 80 && port != 443 {
            value.push(58u8);
            let digits = format_decimal(port as u64);
            push_bytes(&mut value, digits.as_slice());
        }
        assert(value@ =~= host_value(url.host.unwrap()@, port));
        let mut headers = Headers::new();
        let values = vec![value];
        headers.set_raw(host_bytes(), values);
        proof {
            let vs = crate::header::byte_strings(values@);
            assert(vs =~= seq![host_value(url.host.unwrap()@, port)]);
            assert(headers@ =~= seq![(host_name(), vs)]);
        }
        Ok(
            Request {
                url,
                version: HttpVersion::Http11,
                body: BodyWriter::Through,
                wire: Vec::new(),
                headers,
                method,
                marker: PhantomData,
            },
        )
    }

    /// Mutable access to the head's fields, while they can still change.
    pub fn headers_mut(&mut self) -> (r: &mut Headers)
        ensures
            r@ == old(self).spec_headers(),
            final(self).spec_headers() == final(r)@,
            final(self).spec_url() == old(self).spec_url(),
            final(self).spec_version() == old(self).spec_version(),
            final(self).framing() == old(self).framing(),
            final(self).sent() == old(self).sent(),
            final(self).spec_method() == old(self).spec_method(),
    {
        &mut self.headers
    }

    /// Writes the head and picks the body framing: none for GET and HEAD,
    /// the stated length when `Content-Length` gives one, chunked otherwise
    /// (adding `chunked` to `Transfer-Encoding`).
    pub fn start(self) -> (r: Request<Streaming>)
        ensures
            r.spec_method() == self.spec_method(),
            r.spec_url() == self.spec_url(),
            r.spec_version() == self.spec_version(),
            r.spec_headers() == started_headers(self.spec_method(), self.spec_headers()),
            r.framing() == framing_for(self.spec_method(), self.spec_headers()),
            r.sent() == self.sent() + head_bytes(
                self.spec_method(),
                self.spec_url().spec_request_uri(),
                self.spec_version(),
                r.spec_headers(),
            ),
    {
        let Request { url, version, body: _, wire, headers, method, marker: _ } = self;
        let mut wire = wire;
        let mut headers = headers;
        let uri = url.request_uri();
        let framing = write_head(method, uri.as_slice(), version, &mut headers, &mut wire);
        Request { url, version, body: framing, wire, headers, method, marker: PhantomData }
    }
}

impl Request<Streaming> {
    /// Writes body bytes through the active framing. Refused, with nothing
    /// sent, when the method carries no body.
    pub fn write(&mut self, msg: &[u8]) -> (r: Result<usize, HttpError>)
        ensures
            old(self).framing() == BodyWriter::Empty ==> r == Err::<usize, HttpError>(
                HttpError::BodyNotAllowed,
            ),
            old(self).framing() != BodyWriter::Empty ==> r == Ok::<usize, HttpError>(msg@.len() as usize),
            final(self).sent() == old(self).sent() + framed(old(self).framing(), msg@),
            final(self).framing() == old(self).framing(),
            final(self).spec_headers() == old(self).spec_headers(),
            final(self).spec_method() == old(self).spec_method(),
            final(self).spec_url() == old(self).spec_url(),
            final(self).spec_version() == old(self).spec_version(),
    {
        match self.body {
            BodyWriter::Empty => {
                assert(self.wire@ =~= old(self).sent() + framed(old(self).framing(), msg@));
                Err(HttpError::BodyNotAllowed)
            },
            BodyWriter::Chunked => {
                if msg.len() > 0 {
                    let size = format_hex(msg.len() as u64);
                    push_bytes(&mut self.wire, size.as_slice());
                    push_crlf(&mut self.wire);
                    push_bytes(&mut self.wire, msg);
                    push_crlf(&mut self.wire);
                }
                assert(self.wire@ =~= old(self).sent() + framed(old(self).framing(), msg@));
                Ok(msg.len())
            },
            _ => {
                push_bytes(&mut self.wire, msg);
                Ok(msg.len())
            },
        }
    }

    /// Nothing is held back between writes, so there is nothing to flush.
    pub fn flush(&mut self) -> (r: Result<(), HttpError>)
        ensures
            r.is_ok(),
            *final(self) == *old(self),
    {
        Ok(())
    }

    /// Finishes the body (a chunked one gets its last chunk) and hands back
    /// every byte of the request, in order.
    pub fn send(self) -> (r: Vec<u8>)
        ensures
            r@ == self.sent() + terminator(self.framing()),
    {
        let mut wire = self.wire;
        if self.body == BodyWriter::Chunked {
            wire.push(48u8);
            push_crlf(&mut wire);
            push_crlf(&mut wire);
        }
        assert(wire@ =~= self.sent() + terminator(self.framing()));
        wire
    }
}

/// What every request offers, whatever its phase or protocol.
pub trait HttpRequest {
    /// The request method.
    spec fn request_method(&self) -> Method;

    /// The fields of the head.
    spec fn request_headers(&self) -> Seq<FieldView>;

    /// Reads the fields.
    fn headers(&self) -> (r: &Headers)
        ensures
            r@ == self.request_headers(),
    ;

    /// Reads the method.
    fn method(&self) -> (r: Method)
        ensures
            r == self.request_method(),
    ;
}

/// A request of which nothing has been sent: its head can still change, and
/// starting it gives the streaming request.
pub trait FreshHttpRequest: HttpRequest + Sized {
    /// The phase that starting moves to.
    type Streaming: StreamingHttpRequest;

    /// Sends the head and moves to the streaming phase.
    fn start(self) -> (r: Self::Streaming)
        ensures
            r.request_method() == self.request_method(),
            r.request_headers() == started_headers(self.request_method(), self.request_headers()),
    ;

    /// Mutable access to the fields that will be sent.
    fn headers_mut(&mut self) -> (r: &mut Headers)
        ensures
            r@ == old(self).request_headers(),
            final(self).request_headers() == final(r)@,
    ;
}

/// A request whose head has been sent, now taking body bytes.
pub trait StreamingHttpRequest: HttpRequest + Sized {
    /// Every byte of the request once finished.
    spec fn finished_bytes(&self) -> Seq<u8>;

    /// Finishes the request and hands back every byte of it.
    fn send(self) -> (r: Vec<u8>)
        ensures
            r@ == self.finished_bytes(),
    ;
}

impl<W> HttpRequest for Request<W> {
    open spec fn request_method(&self) -> Method {
        self.spec_method()
    }

    open spec fn request_headers(&self) -> Seq<FieldView> {
        self.spec_headers()
    }

    fn headers(&self) -> (r: &Headers) {
        Request::<W>::headers(self)
    }

    fn method(&self) -> (r: Method) {
        Request::<W>::method(self)
    }
}

impl FreshHttpRequest for Request<Fresh> {
    type Streaming = Request<Streaming>;

    fn start(self) -> (r: Request<Streaming>) {
        Request::<Fresh>::start(self)
    }

    fn headers_mut(&mut self) -> (r: &mut Headers) {
        Request::<Fresh>::headers_mut(self)
    }
}

impl StreamingHttpRequest for Request<Streaming> {
    open spec fn finished_bytes(&self) -> Seq<u8> {
        self.sent() + terminator(self.framing())
    }

    fn send(self) -> (r: Vec<u8>) {
        Request::<Streaming>::send(self)
    }
}

} // verus!
