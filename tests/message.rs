use hyper::header::Headers;
use hyper::message::{Http11Message, Http2Message, HttpMessage, MessageKind, RequestHead};
use hyper::method::Method;
use hyper::target::Target;

fn h2(id: u32) -> HttpMessage {
    HttpMessage::Http2(Http2Message { outgoing: None, stream_id: Some(id), response: None, closed: false })
}

fn h11() -> HttpMessage {
    HttpMessage::Http11(Http11Message { wire: Vec::new(), framing: None, closed: false })
}

#[test]
fn downcast_to_own_kind_gives_value_back() {
    let m = h2(9);
    assert!(m.is::<Http2Message>());
    assert!(!m.is::<Http11Message>());
    assert_eq!(m.downcast_ref::<Http2Message>().map(|v| v.stream_id), Some(Some(9)));
    let v = m.downcast::<Http2Message>().ok().unwrap();
    assert_eq!(v.stream_id, Some(9));
}

#[test]
fn downcast_to_other_kind_leaves_message_intact() {
    let m = h2(11);
    assert!(m.downcast_ref::<Http11Message>().is_none());
    let back = match m.downcast::<Http11Message>() {
        Ok(_) => panic!("wrong kind accepted"),
        Err(m) => m,
    };
    assert_eq!(back.kind(), MessageKind::Http2);
    assert_eq!(back.downcast::<Http2Message>().ok().unwrap().stream_id, Some(11));
}

#[test]
fn downcast_mut_changes_the_inner_value() {
    let mut m = h11();
    assert!(m.downcast_mut::<Http2Message>().is_none());
    m.downcast_mut::<Http11Message>().unwrap().closed = true;
    assert!(m.downcast_ref::<Http11Message>().unwrap().closed);
}

#[test]
fn set_outgoing_writes_http11_head() {
    let mut m = h11();
    let head = RequestHead {
        headers: Headers::new(),
        method: Method::Post,
        url: Target::parse("http://example.dom/p").unwrap(),
    };
    let head = m.set_outgoing(head).ok().unwrap();
    assert!(head.headers.contains(b"Transfer-Encoding"));
    let inner = m.downcast_ref::<Http11Message>().unwrap();
    assert_eq!(inner.wire, b"POST /p HTTP/1.1\r\nTransfer-Encoding: chunked\r\n\r\n".to_vec());
    assert!(m.close_connection().is_ok());
    assert!(m.downcast_ref::<Http11Message>().unwrap().closed);
}

#[test]
fn set_outgoing_keeps_http2_target() {
    let mut m = h2(1);
    let head = RequestHead {
        headers: Headers::new(),
        method: Method::Get,
        url: Target::parse("http://example.dom/x?y").unwrap(),
    };
    let head = m.set_outgoing(head).ok().unwrap();
    assert_eq!(head.headers.len(), 0);
    let inner = m.downcast_ref::<Http2Message>().unwrap();
    assert_eq!(inner.outgoing, Some((b"GET".to_vec(), b"/x?y".to_vec())));
}
