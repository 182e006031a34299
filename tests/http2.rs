use hyper::error::HttpError;
use hyper::http2::{transport_for, Http2Request, Http2Response, Http2Transport};
use hyper::method::Method;
use hyper::target::Target;

fn pair(a: &str, b: &str) -> (Vec<u8>, Vec<u8>) {
    (a.as_bytes().to_vec(), b.as_bytes().to_vec())
}

#[test]
fn response_drops_pseudo_headers_and_reads_status() {
    let raw = vec![
        pair(":status", "200"),
        pair("content-type", "text/html"),
        pair(":weird", "x"),
        pair("server", "s"),
    ];
    let resp = Http2Response::new(3, raw, b"body".to_vec()).unwrap();
    assert_eq!(resp.status, 200);
    assert_eq!(resp.stream_id, 3);
    assert_eq!(resp.body(), &b"body".to_vec());
    assert_eq!(resp.headers.len(), 2);
    assert_eq!(resp.headers.to_bytes(), b"content-type: text/html\r\nserver: s\r\n".to_vec());
}

#[test]
fn repeated_response_header_keeps_last_value() {
    let raw = vec![pair(":status", "404"), pair("x", "1"), pair("X", "2")];
    let resp = Http2Response::new(5, raw, Vec::new()).unwrap();
    assert_eq!(resp.status, 404);
    assert_eq!(resp.headers.to_bytes(), b"x: 2\r\n".to_vec());
}

#[test]
fn malformed_status_is_refused() {
    for raw in [
        vec![],
        vec![pair("server", "s"), pair(":status", "200")],
        vec![pair(":status", "600")],
        vec![pair(":status", "20")],
        vec![pair(":status", "2x0")],
    ] {
        assert_eq!(Http2Response::new(1, raw, Vec::new()).err(), Some(HttpError::MalformedStatus));
    }
}

#[test]
fn scheme_selects_transport() {
    assert_eq!(transport_for(b"http"), Ok(Http2Transport::Cleartext));
    assert_eq!(transport_for(b"https"), Err(HttpError::UnsupportedScheme));
    assert_eq!(transport_for(b"ftp"), Err(HttpError::InvalidScheme));
}

#[test]
fn http2_request_lifecycle() {
    let url = Target::parse("http://example.dom/search?q=1").unwrap();
    let req = Http2Request::new(Method::Get, url);
    assert_eq!(req.stream_id(), None);
    let (method, path) = req.request_head();
    assert_eq!(method, b"GET".to_vec());
    assert_eq!(path, b"/search?q=1".to_vec());
    let req = req.start(7);
    assert_eq!(req.stream_id(), Some(7));
    assert_eq!(req.method(), Method::Get);
}

#[test]
fn response_body_reads_in_pieces() {
    let mut resp = Http2Response::new(1, vec![pair(":status", "200")], b"hello world".to_vec()).unwrap();
    assert_eq!(resp.read(5), b"hello".to_vec());
    assert_eq!(resp.read(100), b" world".to_vec());
    assert_eq!(resp.read(3), Vec::<u8>::new());
    assert_eq!(resp.seek(6), 6);
    assert_eq!(resp.read(3), b"wor".to_vec());
    assert_eq!(resp.seek(99), 11);
    assert_eq!(resp.read(1), Vec::<u8>::new());
}

fn method_through_trait<R: hyper::request::HttpRequest>(r: &R) -> (Method, usize) {
    (r.method(), r.headers().len())
}

#[test]
fn both_protocols_share_the_request_view() {
    let url = Target::parse("http://example.dom/").unwrap();
    let h2 = Http2Request::new(Method::Put, url.clone());
    let h1 = hyper::request::Request::new(Method::Put, url).unwrap();
    assert_eq!(method_through_trait(&h2), (Method::Put, 0));
    assert_eq!(method_through_trait(&h1), (Method::Put, 1));
}
