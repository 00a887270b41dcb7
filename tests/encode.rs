use httpie::http::{ContentType, StatusCode};
use httpie::response::{not_found, server_error, Content, Response};

#[test]
fn json_body_length_matches_header() {
    let body = String::from("{\"k\":\"v\"}");
    let len = body.len();
    let r = Response {
        body: Content::HeapString(body.clone()),
        content_type: ContentType::ApplicationJson,
        status: StatusCode::Http200Ok,
    };
    let bytes = r.encode();
    let expected = format!(
        "HTTP/1.1 200 OK\r\nContent-Length: {}\r\nContent-Type: application/json\r\n\r\n{}",
        len, body
    );
    assert_eq!(bytes, expected.into_bytes());
    let text = String::from_utf8(r.encode()).unwrap();
    let (head, rest) = text.split_once("\r\n\r\n").unwrap();
    let value: usize = head
        .split("\r\n")
        .find_map(|l| l.strip_prefix("Content-Length: "))
        .unwrap()
        .parse()
        .unwrap();
    assert_eq!(value, len);
    assert_eq!(rest.len(), len);
}

#[test]
fn length_counts_bytes_of_text() {
    let r = Response {
        body: Content::HeapString(String::from("é")),
        content_type: ContentType::TextPlain,
        status: StatusCode::Http200Ok,
    };
    assert_eq!(r.body.byte_len(), 2);
    let expected = "HTTP/1.1 200 OK\r\nContent-Length: 2\r\nContent-Type: text/plain\r\n\r\né";
    assert_eq!(r.encode(), expected.as_bytes().to_vec());
}

#[test]
fn raw_body_follows_head() {
    let r = Response {
        body: Content::Raw(vec![0, 255, 10]),
        content_type: ContentType::ImagePng,
        status: StatusCode::Http200Ok,
    };
    let head = b"HTTP/1.1 200 OK\r\nContent-Length: 3\r\nContent-Type: image/png\r\n\r\n".to_vec();
    assert_eq!(r.head(), head);
    let mut all = head.clone();
    all.extend_from_slice(&[0, 255, 10]);
    assert_eq!(r.encode(), all);
}

#[test]
fn empty_body_has_zero_length() {
    let r = Response {
        body: Content::Empty,
        content_type: ContentType::Unknown,
        status: StatusCode::Http204NoContent,
    };
    let expected = b"HTTP/1.1 204 No Content\r\nContent-Length: 0\r\nContent-Type: */*\r\n\r\n".to_vec();
    assert_eq!(r.encode(), expected);
}

#[test]
fn static_body_and_long_length() {
    let r = Response {
        body: Content::StaticString("0123456789"),
        content_type: ContentType::TextHtml,
        status: StatusCode::Http404NotFound,
    };
    let expected = b"HTTP/1.1 404 Not Found\r\nContent-Length: 10\r\nContent-Type: text/html\r\n\r\n0123456789".to_vec();
    assert_eq!(r.encode(), expected);
}

#[test]
fn built_in_pages() {
    let r = not_found();
    assert_eq!(r.status, StatusCode::Http404NotFound);
    assert_eq!(r.content_type, ContentType::TextHtml);
    match r.body {
        Content::StaticString(s) => assert!(s.contains("<h1>Not Found</h1>")),
        _ => panic!("the 404 page is static text"),
    }
    let r = server_error();
    assert_eq!(r.status, StatusCode::Http500InternalServerError);
    assert_eq!(r.content_type, ContentType::TextHtml);
    match r.body {
        Content::StaticString(s) => assert!(s.contains("500 Internal Server Error")),
        _ => panic!("the 500 page is static text"),
    }
}
