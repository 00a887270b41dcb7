use httpie::http::{ContentType, Method, Protocol, StatusCode};
use httpie::request::Request;

fn pairs(r: &Request) -> Vec<(&str, &str)> {
    r.params.iter().map(|(k, v)| (k.as_str(), v.as_str())).collect()
}

#[test]
fn query_pairs_in_order() {
    let r = Request::from(b"GET /search?a=1&b=2 HTTP/1.1\r\nHost: x\r\n\r\n");
    assert_eq!(r.path, "/search");
    assert_eq!(pairs(&r), vec![("a", "1"), ("b", "2")]);
    assert_eq!(r.method, Method::Get);
}

#[test]
fn query_key_without_value() {
    let r = Request::from(b"GET /p?a&b=2 HTTP/1.1\r\n\r\n");
    assert_eq!(pairs(&r), vec![("a", ""), ("b", "2")]);
}

#[test]
fn query_duplicate_keys_kept() {
    let r = Request::from(b"GET /p?x=1&x=2&y HTTP/1.1\r\n\r\n");
    assert_eq!(pairs(&r), vec![("x", "1"), ("x", "2"), ("y", "")]);
}

#[test]
fn value_keeps_later_equals_signs() {
    let r = Request::from(b"GET /p?k=a=b HTTP/1.1\r\n\r\n");
    assert_eq!(pairs(&r), vec![("k", "a=b")]);
}

#[test]
fn no_query_gives_one_empty_pair() {
    let r = Request::from(b"GET /index.html HTTP/1.1\r\n\r\n");
    assert_eq!(r.path, "/index.html");
    assert_eq!(pairs(&r), vec![("", "")]);
}

#[test]
fn method_and_protocol_words() {
    let r = Request::from(b"POST /x HTTP/1.1\r\n\r\n");
    assert_eq!(r.method, Method::Post);
    // The protocol labels are written with a space, so a wire version is not one of them.
    assert_eq!(r.protocol, Protocol::Unknown);
    assert_eq!(r.content_type, ContentType::Unknown);
    assert_eq!(r.status, StatusCode::Http200Ok);
    let r = Request::from(b"PUT /x HTTP 1.1\r\n\r\n");
    assert_eq!(r.method, Method::Put);
    assert_eq!(r.path, "/x");
}

#[test]
fn missing_words_degrade() {
    let r = Request::from(b"");
    assert_eq!(r.method, Method::Unknown);
    assert_eq!(r.path, "");
    assert_eq!(r.protocol, Protocol::Unknown);
    assert_eq!(r.content_size, 0);
    assert!(r.content.is_empty());
    let r = Request::from(b"DELETE");
    assert_eq!(r.method, Method::Unknown);
    assert_eq!(r.path, "");
}

#[test]
fn invalid_utf8_head_reads_as_empty() {
    let r = Request::from(b"GET /a\xff HTTP/1.1\r\nContent-Length: 3\r\n\r\nabc");
    assert_eq!(r.method, Method::Unknown);
    assert_eq!(r.path, "");
    assert_eq!(r.content_size, 0);
    assert!(r.content.is_empty());
}

#[test]
fn body_in_first_read() {
    let r = Request::from(b"POST /u HTTP/1.1\r\nContent-Length: 5\r\n\r\nhello");
    assert_eq!(r.content_size, 5);
    assert_eq!(r.content, b"hello".to_vec());
    assert_eq!(r.body_missing(), 0);
}

#[test]
fn body_across_reads() {
    let mut r = Request::from(b"POST /u HTTP/1.1\r\nContent-Length: 5\r\n\r\nhe");
    assert_eq!(r.content, b"he".to_vec());
    assert_eq!(r.body_missing(), 3);
    r.extend_body(b"l");
    assert_eq!(r.body_missing(), 2);
    r.extend_body(b"lo and more");
    assert_eq!(r.content, b"hello".to_vec());
    assert_eq!(r.body_missing(), 0);
    r.extend_body(b"ignored");
    assert_eq!(r.content, b"hello".to_vec());
}

#[test]
fn body_entirely_in_later_reads() {
    let mut r = Request::from(b"POST /u HTTP/1.1\r\nContent-Length: 5\r\n\r\n");
    assert!(r.content.is_empty());
    assert_eq!(r.body_missing(), 5);
    r.extend_body(b"hel");
    r.extend_body(b"lo");
    assert_eq!(r.content, b"hello".to_vec());
}

#[test]
fn extra_bytes_after_body_are_dropped() {
    let r = Request::from(b"POST /u HTTP/1.1\r\nContent-Length: 2\r\n\r\nabcdef");
    assert_eq!(r.content, b"ab".to_vec());
}

#[test]
fn content_length_parsing() {
    let r = Request::from(b"POST /u HTTP/1.1\r\nContent-Length: +7\r\n\r\n");
    assert_eq!(r.content_size, 7);
    let r = Request::from(b"POST /u HTTP/1.1\r\nContent-Length: abc\r\n\r\n");
    assert_eq!(r.content_size, 0);
    let r = Request::from(b"POST /u HTTP/1.1\r\nContent-Length: -1\r\n\r\n");
    assert_eq!(r.content_size, 0);
    let r = Request::from(b"POST /u HTTP/1.1\r\nContent-Length: 99999999999999999999999\r\n\r\n");
    assert_eq!(r.content_size, 0);
    let r = Request::from(b"POST /u HTTP/1.1\r\nContent-Length: 12");
    assert_eq!(r.content_size, 12);
    let r = Request::from(b"POST /u HTTP/1.1\r\ncontent-length: 12\r\n\r\n");
    assert_eq!(r.content_size, 0);
    let r = Request::from(b"POST /u HTTP/1.1\r\nContent-Length: \r\n\r\n");
    assert_eq!(r.content_size, 0);
}

#[test]
fn content_length_of_largest_size() {
    let head = format!("POST /u HTTP/1.1\r\nContent-Length: {}\r\n\r\n", usize::MAX);
    let r = Request::from(head.as_bytes());
    assert_eq!(r.content_size, usize::MAX);
    assert_eq!(r.body_missing(), usize::MAX);
}

#[test]
fn unicode_white_space_separates_words() {
    let r = Request::from("GET\u{a0}/x\u{3000}HTTP\r\n\r\n".as_bytes());
    assert_eq!(r.method, Method::Get);
    assert_eq!(r.path, "/x");
}
