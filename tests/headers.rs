use hyper::header::Headers;
use hyper::numeral::{format_decimal, format_hex, format_radix, parse_decimal};

#[test]
fn names_match_without_case() {
    let mut h = Headers::new();
    h.set_raw(b"Content-Type".to_vec(), vec![b"text/plain".to_vec()]);
    assert!(h.contains(b"content-type"));
    assert!(h.contains(b"CONTENT-TYPE"));
    assert!(!h.contains(b"content-typ"));
    assert_eq!(h.get_raw(b"CoNtEnT-tYpE"), Some(&vec![b"text/plain".to_vec()]));
}

#[test]
fn set_replaces_in_place_and_append_extends() {
    let mut h = Headers::new();
    h.set_raw(b"A".to_vec(), vec![b"1".to_vec()]);
    h.set_raw(b"B".to_vec(), vec![b"2".to_vec()]);
    h.set_raw(b"a".to_vec(), vec![b"3".to_vec()]);
    h.append_raw(b"b".to_vec(), b"4".to_vec());
    h.append_raw(b"C".to_vec(), b"5".to_vec());
    assert_eq!(h.len(), 3);
    assert_eq!(h.to_bytes(), b"A: 3\r\nB: 2, 4\r\nC: 5\r\n".to_vec());
}

#[test]
fn content_length_reads_one_decimal_value() {
    let mut h = Headers::new();
    assert_eq!(h.content_length(), None);
    h.set_content_length(1234);
    assert_eq!(h.content_length(), Some(1234));
    assert_eq!(h.to_bytes(), b"Content-Length: 1234\r\n".to_vec());
    h.set_raw(b"content-length".to_vec(), vec![b"12x".to_vec()]);
    assert_eq!(h.content_length(), None);
    h.set_raw(b"content-length".to_vec(), vec![b"1".to_vec(), b"2".to_vec()]);
    assert_eq!(h.content_length(), None);
}

#[test]
fn numerals() {
    assert_eq!(format_decimal(0), b"0".to_vec());
    assert_eq!(format_decimal(18446744073709551615), b"18446744073709551615".to_vec());
    assert_eq!(format_hex(255), b"FF".to_vec());
    assert_eq!(format_hex(26), b"1A".to_vec());
    assert_eq!(format_radix(5, 2), b"101".to_vec());
    assert_eq!(parse_decimal(b"18446744073709551615"), Some(u64::MAX));
    assert_eq!(parse_decimal(b"18446744073709551616"), None);
    assert_eq!(parse_decimal(b""), None);
    assert_eq!(parse_decimal(b"12a"), None);
    assert_eq!(parse_decimal(b"007"), Some(7));
}
