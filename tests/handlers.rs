use httpie::handlers::hello_world;
use httpie::http::{ContentType, StatusCode};
use httpie::request::Request;
use httpie::response::Content;

#[test]
fn hello_world_describes_request() {
    let req = Request::from(b"GET /hello?a=1 HTTP/1.1\r\n\r\n");
    let r = hello_world(req);
    assert_eq!(r.status, StatusCode::Http200Ok);
    assert_eq!(r.content_type, ContentType::ApplicationJson);
    let expected = "{\n    \"path\":/hello,\n    \"method\":GET,\n    \"content-type\":*/*,\n    \"protocol\":Unknown,\n    \"status\":200 OK\n}";
    match r.body {
        Content::HeapString(s) => assert_eq!(s, expected),
        _ => panic!("the description is text"),
    }
}
