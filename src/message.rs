//! The capability that carries one request and hands back one response,
//! over either protocol. The set of implementations is closed, so a message
//! is a sum of the concrete kinds and recovering a kind is a checked match.

use vstd::prelude::*;
use crate::error::HttpError;
use crate::header::Headers;
use crate::http2::Http2Response;
use crate::method::{HttpVersion, Method};
use crate::request::{framing_for, head_bytes, started_headers, write_head, BodyWriter};
use crate::target::Target;

verus! {

/// Describes a request.
pub struct RequestHead {
    pub headers: Headers,
    pub method: Method,
    pub url: Target,
}

/// A status code with its reason phrase.
pub struct RawStatus {
    pub code: u16,
    pub reason: Vec<u8>,
}

/// Describes a response.
pub struct ResponseHead {
    pub headers: Headers,
    pub raw_status: RawStatus,
    pub version: HttpVersion,
}

/// The concrete kinds of message.
#[derive(Clone, Copy, Debug, PartialEq, Eq, Structural)]
pub enum MessageKind {
    Http11,
    Http2,
}

/// An HTTP/1.x exchange on a connection of its own.
pub struct Http11Message {
    /// Everything written to the connection so far.
    pub wire: Vec<u8>,
    /// The framing chosen for the outgoing body, once the head is set.
    pub framing: Option<BodyWriter>,
    /// Whether the connection has been released.
    pub closed: bool,
}

/// An HTTP/2 exchange on one stream of a shared session.
pub struct Http2Message {
    /// The method token and request target to open a stream with, once the
    /// head is set.
    pub outgoing: Option<(Vec<u8>, Vec<u8>)>,
    /// The stream the request went out on, once opened.
    pub stream_id: Option<u32>,
    /// The response, once it has been read.
    pub response: Option<Http2Response>,
    /// Whether the stream has been released.
    pub closed: bool,
}

/// One request-response exchange over either protocol.
pub enum HttpMessage {
    Http11(Http11Message),
    Http2(Http2Message),
}

/// A concrete kind of message that a message can be recovered as.
pub trait Concrete: Sized {
    /// The kind that holds values of this type.
    spec fn kind() -> MessageKind;

    /// The message that carries `v`.
    spec fn wrap(v: Self) -> HttpMessage;

    proof fn lemma_wrap(v: Self, w: Self)
        ensures
            Self::wrap(v).spec_kind() == Self::kind(),
            Self::wrap(v) == Self::wrap(w) ==> v == w,
    ;

    fn exec_kind() -> (r: MessageKind)
        ensures
            r == Self::kind(),
    ;

    /// Puts `self` into a message.
    fn into_message(self) -> (r: HttpMessage)
        ensures
            r == Self::wrap(self),
    ;

    fn from_message(m: HttpMessage) -> (r: Result<Self, HttpMessage>)
        ensures
            r.is_ok() == (m.spec_kind() == Self::kind()),
            r matches Ok(v) ==> Self::wrap(v) == m,
            r matches Err(e) ==> e == m,
    ;

    fn from_ref(m: &HttpMessage) -> (r: Option<&Self>)
        ensures
            r.is_some() == (m.spec_kind() == Self::kind()),
            r matches Some(v) ==> Self::wrap(*v) == *m,
    ;

    fn from_mut(m: &mut HttpMessage) -> (r: Option<&mut Self>)
        ensures
            r.is_some() == (old(m).spec_kind() == Self::kind()),
            r matches Some(v) ==> Self::wrap(*v) == *old(m) && *final(m) == Self::wrap(*final(v)),
            r.is_none() ==> *final(m) == *old(m),
    ;
}

impl Concrete for Http11Message {
    open spec fn kind() -> MessageKind {
        MessageKind::Http11
    }

    open spec fn wrap(v: Self) -> HttpMessage {
        HttpMessage::Http11(v)
    }

    proof fn lemma_wrap(v: Self, w: Self) {
    }

    fn exec_kind() -> (r: MessageKind) {
        MessageKind::Http11
    }

    fn into_message(self) -> (r: HttpMessage) {
        HttpMessage::Http11(self)
    }

    fn from_message(m: HttpMessage) -> (r: Result<Self, HttpMessage>) {
        match m {
            HttpMessage::Http11(v) => Ok(v),
            other => Err(other),
        }
    }

    fn from_ref(m: &HttpMessage) -> (r: Option<&Self>) {
        match m {
            HttpMessage::Http11(v) => Some(v),
            _ => None,
        }
    }

    fn from_mut(m: &mut HttpMessage) -> (r: Option<&mut Self>) {
        match m {
            HttpMessage::Http11(v) => Some(v),
            _ => None,
        }
    }
}

impl Concrete for Http2Message {
    open spec fn kind() -> MessageKind {
        MessageKind::Http2
    }

    open spec fn wrap(v: Self) -> HttpMessage {
        HttpMessage::Http2(v)
    }

    proof fn lemma_wrap(v: Self, w: Self) {
    }

    fn exec_kind() -> (r: MessageKind) {
        MessageKind::Http2
    }

    fn into_message(self) -> (r: HttpMessage) {
        HttpMessage::Http2(self)
    }

    fn from_message(m: HttpMessage) -> (r: Result<Self, HttpMessage>) {
        match m {
            HttpMessage::Http2(v) => Ok(v),
            other => Err(other),
        }
    }

    fn from_ref(m: &HttpMessage) -> (r: Option<&Self>) {
        match m {
            HttpMessage::Http2(v) => Some(v),
            _ => None,
        }
    }

    fn from_mut(m: &mut HttpMessage) -> (r: Option<&mut Self>) {
        match m {
            HttpMessage::Http2(v) => Some(v),
            _ => None,
        }
    }
}

impl HttpMessage {
    /// The concrete kind behind this message.
    pub open spec fn spec_kind(&self) -> MessageKind {
        match self {
            HttpMessage::Http11(_) => MessageKind::Http11,
            HttpMessage::Http2(_) => MessageKind::Http2,
        }
    }

    /// The concrete kind behind this message.
    pub fn kind(&self) -> (r: MessageKind)
        ensures
            r == self.spec_kind(),
    {
        match self {
            HttpMessage::Http11(_) => MessageKind::Http11,
            HttpMessage::Http2(_) => MessageKind::Http2,
        }
    }

    /// Hands over the head of the request. Over HTTP/1.x the head is written
    /// and the body framing chosen, and the fields come back as written;
    /// over HTTP/2 the method and target are kept for opening the stream.
    pub fn set_outgoing(&mut self, head: RequestHead) -> (r: Result<RequestHead, HttpError>)
        ensures
            r is Ok,
            r matches Ok(h) ==> h.method == head.method && h.url == head.url,
            *old(self) is Http11 ==> {
                &&& *final(self) is Http11
                &&& (*final(self))->Http11_0.closed == (*old(self))->Http11_0.closed
                &&& (*final(self))->Http11_0.framing == Some(framing_for(head.method, head.headers@))
                &&& r matches Ok(h) && h.headers@ == started_headers(head.method, head.headers@)
                &&& (*final(self))->Http11_0.wire@ == (*old(self))->Http11_0.wire@ + head_bytes(
                    head.method,
                    head.url.spec_request_uri(),
                    HttpVersion::Http11,
                    started_headers(head.method, head.headers@),
                )
            },
            *old(self) is Http2 ==> {
                &&& *final(self) is Http2
                &&& (*final(self))->Http2_0.stream_id == (*old(self))->Http2_0.stream_id
                &&& (*final(self))->Http2_0.closed == (*old(self))->Http2_0.closed
                &&& (*final(self))->Http2_0.outgoing matches Some(o) && o.0@ == head.method.token()
                    && o.1@ == head.url.spec_request_uri()
                &&& r matches Ok(h) && h.headers@ == head.headers@
            },
    {
        let RequestHead { headers, method, url } = head;
        let mut headers = headers;
        let uri = url.request_uri();
        match self {
            HttpMessage::Http11(m) => {
                let framing = write_head(method, uri.as_slice(), HttpVersion::Http11, &mut headers, &mut m.wire);
                m.framing = Some(framing);
            },
            HttpMessage::Http2(m) => {
                m.outgoing = Some((method.as_bytes(), uri));
            },
        }
        Ok(RequestHead { headers, method, url })
    }

    /// Releases the connection or stream.
    pub fn close_connection(&mut self) -> (r: Result<(), HttpError>)
        ensures
            r is Ok,
            final(self).spec_kind() == old(self).spec_kind(),
            *final(self) matches HttpMessage::Http11(m) ==> m.closed,
            *final(self) matches HttpMessage::Http2(m) ==> m.closed,
    {
        match self {
            HttpMessage::Http11(m) => {
                m.closed = true;
            },
            HttpMessage::Http2(m) => {
                m.closed = true;
            },
        }
        Ok(())
    }

    /// Whether the message is a `T`.
    pub fn is<T: Concrete>(&self) -> (r: bool)
        ensures
            r == (self.spec_kind() == T::kind()),
    {
        self.kind() == T::exec_kind()
    }

    /// The `T` inside, if the message is one.
    pub fn downcast_ref<T: Concrete>(&self) -> (r: Option<&T>)
        ensures
            r.is_some() == (self.spec_kind() == T::kind()),
            r matches Some(v) ==> T::wrap(*v) == *self,
    {
        T::from_ref(self)
    }

    /// Mutable access to the `T` inside, if the message is one.
    pub fn downcast_mut<T: Concrete>(&mut self) -> (r: Option<&mut T>)
        ensures
            r.is_some() == (old(self).spec_kind() == T::kind()),
            r matches Some(v) ==> T::wrap(*v) == *old(self) && *final(self) == T::wrap(*final(v)),
            r.is_none() ==> *final(self) == *old(self),
    {
        T::from_mut(self)
    }

    /// The `T` inside, if the message is one; otherwise the message itself,
    /// untouched.
    pub fn downcast<T: Concrete>(self) -> (r: Result<T, HttpMessage>)
        ensures
            r.is_ok() == (self.spec_kind() == T::kind()),
            r matches Ok(v) ==> T::wrap(v) == self,
            r matches Err(m) ==> m == self,
    {
        T::from_message(self)
    }
}

/// A message built from a value of one kind is of that kind and gives that
/// very value back; asked for another kind, it refuses and stays as it was.
pub proof fn law_downcast_identity<X: Concrete, Y: Concrete>(v: X, w: X)
    requires
        X::kind() != Y::kind(),
    ensures
        X::wrap(v).spec_kind() == X::kind(),
        X::wrap(v).spec_kind() != Y::kind(),
        X::wrap(w) == X::wrap(v) ==> w == v,
{
    X::lemma_wrap(v, w);
    X::lemma_wrap(w, v);
}

} // verus!
