use hyper::error::HttpError;
use hyper::method::{HttpVersion, Method};
use hyper::request::{BodyWriter, Request};
use hyper::target::Target;

fn text(bytes: &[u8]) -> String {
    String::from_utf8(bytes.to_vec()).unwrap()
}

fn target(s: &str) -> Target {
    Target::parse(s).unwrap()
}

/// Reads a chunked body back: each chunk is a hex length, CRLF, the bytes
/// and CRLF, up to the zero-length chunk.
fn decode_chunked(mut b: &[u8]) -> Option<Vec<u8>> {
    let mut out = Vec::new();
    loop {
        let pos = b.windows(2).position(|w| w == b"\r\n")?;
        let len = usize::from_str_radix(std::str::from_utf8(&b[..pos]).ok()?, 16).ok()?;
        b = &b[pos + 2..];
        if len == 0 {
            return if b == b"\r\n" { Some(out) } else { None };
        }
        if b.len() < len + 2 || &b[len..len + 2] != b"\r\n" {
            return None;
        }
        out.extend_from_slice(&b[..len]);
        b = &b[len + 2..];
    }
}

#[test]
fn test_get_empty_body() {
    let req = Request::new(Method::Get, target("http://example.dom")).unwrap();
    let req = req.start();
    let bytes = req.send();
    let s = text(&bytes);
    assert!(!s.contains("Content-Length:"));
    assert!(!s.contains("Transfer-Encoding:"));
}

#[test]
fn test_head_empty_body() {
    let req = Request::new(Method::Head, target("http://example.dom")).unwrap();
    let req = req.start();
    let bytes = req.send();
    let s = text(&bytes);
    assert!(!s.contains("Content-Length:"));
    assert!(!s.contains("Transfer-Encoding:"));
}

#[test]
fn get_head_is_exact() {
    let req = Request::new(Method::Get, target("http://example.dom/")).unwrap();
    let mut req = req.start();
    assert_eq!(req.framing_kind(), BodyWriter::Empty);
    assert_eq!(req.write(b"x"), Err(HttpError::BodyNotAllowed));
    let bytes = req.send();
    assert_eq!(text(&bytes), "GET / HTTP/1.1\r\nHost: example.dom\r\n\r\n");
}

#[test]
fn get_with_caller_length_keeps_field_and_refuses_body() {
    let mut req = Request::new(Method::Get, target("http://example.dom/")).unwrap();
    req.headers_mut().set_content_length(3);
    let mut req = req.start();
    assert_eq!(req.write(b"abc"), Err(HttpError::BodyNotAllowed));
    let s = text(&req.send());
    assert_eq!(s, "GET / HTTP/1.1\r\nHost: example.dom\r\nContent-Length: 3\r\n\r\n");
}

#[test]
fn post_chunked_frames() {
    let req = Request::new(Method::Post, target("http://example.dom/submit")).unwrap();
    let mut req = req.start();
    assert_eq!(req.framing_kind(), BodyWriter::Chunked);
    assert_eq!(req.write(b"foo"), Ok(3));
    assert_eq!(req.write(b"bar"), Ok(3));
    let s = text(&req.send());
    assert_eq!(
        s,
        "POST /submit HTTP/1.1\r\nHost: example.dom\r\nTransfer-Encoding: chunked\r\n\r\n\
         3\r\nfoo\r\n3\r\nbar\r\n0\r\n\r\n"
    );
}

#[test]
fn chunked_round_trip_with_empty_chunk() {
    let req = Request::new(Method::Put, target("http://example.dom/x")).unwrap();
    let mut req = req.start();
    let head_len = req.written().len();
    assert_eq!(req.write(b"abc"), Ok(3));
    assert_eq!(req.write(b""), Ok(0));
    assert_eq!(req.write(b"de"), Ok(2));
    let bytes = req.send();
    assert_eq!(decode_chunked(&bytes[head_len..]), Some(b"abcde".to_vec()));
}

#[test]
fn chunk_length_is_hex() {
    let req = Request::new(Method::Post, target("http://example.dom/")).unwrap();
    let mut req = req.start();
    let head_len = req.written().len();
    let data = vec![b'z'; 26];
    assert_eq!(req.write(&data), Ok(26));
    let body = &req.written()[head_len..];
    assert!(body.starts_with(b"1A\r\nzzz"));
    assert!(body.ends_with(b"z\r\n"));
}

#[test]
fn stated_length_gives_sized_body() {
    let mut req = Request::new(Method::Post, target("http://example.dom/up")).unwrap();
    req.headers_mut().set_content_length(5);
    let mut req = req.start();
    assert_eq!(req.framing_kind(), BodyWriter::Sized(5));
    assert_eq!(req.write(b"hello"), Ok(5));
    let s = text(&req.send());
    assert_eq!(s, "POST /up HTTP/1.1\r\nHost: example.dom\r\nContent-Length: 5\r\n\r\nhello");
    assert!(!s.contains("Transfer-Encoding"));
}

#[test]
fn existing_transfer_encoding_gets_chunked_appended() {
    let mut req = Request::new(Method::Post, target("http://example.dom/")).unwrap();
    req.headers_mut().set_raw(b"transfer-encoding".to_vec(), vec![b"gzip".to_vec()]);
    let req = req.start();
    let s = text(req.written());
    assert!(s.contains("\r\ntransfer-encoding: gzip, chunked\r\n"));
}

#[test]
fn host_carries_port_and_uri_carries_query() {
    let req = Request::new(Method::Delete, target("http://example.dom:8080/a/b?x=1&y=2")).unwrap();
    let req = req.start();
    let s = text(req.written());
    assert!(s.starts_with("DELETE /a/b?x=1&y=2 HTTP/1.1\r\nHost: example.dom:8080\r\n"));
}

#[test]
fn https_default_port_is_left_out_of_host() {
    let req = Request::new(Method::Get, target("https://example.dom/")).unwrap();
    assert_eq!(req.version, HttpVersion::Http11);
    let req = req.start();
    assert!(text(req.written()).contains("\r\nHost: example.dom\r\n"));
}

#[test]
fn url_errors() {
    assert_eq!(Target::parse("not a url").err(), Some(HttpError::InvalidUrl));
    let no_host = target("mailto:someone@example.dom");
    assert_eq!(Request::new(Method::Get, no_host).err(), Some(HttpError::NoHost));
    let no_port = target("gopherish://example.dom/");
    assert_eq!(Request::new(Method::Get, no_port).err(), Some(HttpError::NoPort));
}

#[test]
fn request_carries_method_and_url() {
    let req = Request::new(Method::Patch, target("http://example.dom/p")).unwrap();
    assert_eq!(req.method(), Method::Patch);
    assert_eq!(req.url.path, b"/p".to_vec());
    assert_eq!(req.headers().len(), 1);
}
