use httpie::http::{ContentType, StatusCode};
use httpie::response::Content;
use httpie::server::{file_response, Action, FileRead, Routes, Server, StaticFile};

fn server() -> Server<u32> {
    Server::new()
        .address("127.0.0.1:8080")
        .public("www")
        .max_connections(4)
        .routes(Routes::new().add("/hello", 1).add("/cwd", 2))
}

#[test]
fn builder_sets_fields() {
    let s = server();
    assert_eq!(s.address, "127.0.0.1:8080");
    assert_eq!(s.public.as_deref(), Some("www"));
    assert_eq!(s.max_connections, 4);
    let e: Server<u32> = Server::new();
    assert_eq!(e.address, "");
    assert!(e.public.is_none());
    assert_eq!(e.max_connections, 0);
}

#[test]
fn bound_path_goes_to_its_handler() {
    let s = server();
    match s.dispatch("/hello") {
        Action::Handle(i) => assert_eq!(*s.routes.handler(i), 1),
        _ => panic!("a bound path goes to its handler"),
    }
    match s.dispatch("/cwd") {
        Action::Handle(i) => assert_eq!(*s.routes.handler(i), 2),
        _ => panic!("a bound path goes to its handler"),
    }
}

#[test]
fn routes_win_over_files() {
    let s = Server::new().public("www").routes(Routes::new().add("/index.html", 7u32));
    match s.dispatch("/index.html") {
        Action::Handle(i) => assert_eq!(*s.routes.handler(i), 7),
        _ => panic!("the route table comes first"),
    }
}

#[test]
fn later_binding_replaces_earlier() {
    let r = Routes::new().add("/a", 1u32).add("/b", 2).add("/a", 3);
    assert_eq!(r.find("/a").map(|i| *r.handler(i)), Some(3));
    assert_eq!(r.find("/b").map(|i| *r.handler(i)), Some(2));
    assert_eq!(r.find("/c"), None);
    assert_eq!(r.find("/A"), None);
}

#[test]
fn root_serves_index() {
    let s = server();
    match s.dispatch("/") {
        Action::Serve(f) => {
            assert_eq!(f.path, "www/index.html");
            assert_eq!(f.content_type, ContentType::TextHtml);
            let r = file_response(f, FileRead::Text(String::from("<p>hi</p>")));
            assert_eq!(r.status, StatusCode::Http200Ok);
            assert_eq!(r.content_type, ContentType::TextHtml);
            match r.body {
                Content::HeapString(s) => assert_eq!(s, "<p>hi</p>"),
                _ => panic!("an html file is served as text"),
            }
        }
        _ => panic!("/ names index.html"),
    }
}

#[test]
fn files_resolve_under_root() {
    let s = server();
    match s.dispatch("/img/logo.png") {
        Action::Serve(f) => {
            assert_eq!(f.path, "www/img/logo.png");
            assert_eq!(f.content_type, ContentType::ImagePng);
        }
        _ => panic!("an unbound path names a file"),
    }
    let s = Server::<u32>::new().public("www/");
    match s.dispatch("/a.css") {
        Action::Serve(f) => {
            assert_eq!(f.path, "www/a.css");
            assert_eq!(f.content_type, ContentType::TextCss);
        }
        _ => panic!("an unbound path names a file"),
    }
    let s = Server::<u32>::new().public("");
    match s.dispatch("/a.js") {
        Action::Serve(f) => assert_eq!(f.path, "a.js"),
        _ => panic!("an unbound path names a file"),
    }
}

#[test]
fn missing_file_is_not_found() {
    let f = StaticFile { path: String::from("www/none.html"), content_type: ContentType::TextHtml };
    let r = file_response(f, FileRead::Missing);
    assert_eq!(r.status, StatusCode::Http404NotFound);
    assert_eq!(r.content_type, ContentType::TextHtml);
    match r.body {
        Content::StaticString(s) => assert!(s.contains("The requested URL was not found on this server.")),
        _ => panic!("the 404 page is static text"),
    }
}

#[test]
fn unreadable_file_is_server_error() {
    let f = StaticFile { path: String::from("www/a.png"), content_type: ContentType::ImagePng };
    let r = file_response(f, FileRead::Failed);
    assert_eq!(r.status, StatusCode::Http500InternalServerError);
    assert_eq!(r.content_type, ContentType::TextHtml);
}

#[test]
fn binary_file_is_served_raw() {
    let f = StaticFile { path: String::from("www/a.png"), content_type: ContentType::ImagePng };
    let r = file_response(f, FileRead::Bytes(vec![1, 2, 3]));
    assert_eq!(r.status, StatusCode::Http200Ok);
    assert_eq!(r.content_type, ContentType::ImagePng);
    match r.body {
        Content::Raw(v) => assert_eq!(v, vec![1, 2, 3]),
        _ => panic!("a png file is served as bytes"),
    }
}

#[test]
fn no_public_directory_is_not_found() {
    let s = Server::new().routes(Routes::new().add("/hello", 1u32));
    assert!(matches!(s.dispatch("/"), Action::NotFound));
    assert!(matches!(s.dispatch("/index.html"), Action::NotFound));
}

#[test]
fn parent_segments_are_refused() {
    let s = server();
    assert!(matches!(s.dispatch("/../etc/passwd"), Action::NotFound));
    assert!(matches!(s.dispatch("/a/.."), Action::NotFound));
    match s.dispatch("/a/..b") {
        Action::Serve(f) => assert_eq!(f.path, "www/a/..b"),
        _ => panic!("..b is an ordinary name"),
    }
}

#[test]
fn query_does_not_route() {
    let s = server();
    // Routing sees the decoded path only.
    let r = httpie::request::Request::from(b"GET /hello?x=1 HTTP/1.1\r\n\r\n");
    assert!(matches!(s.dispatch(&r.path), Action::Handle(_)));
}

#[test]
fn dispatch_twice_agrees() {
    let s = server();
    for p in ["/hello", "/", "/x.bin", "/../x"] {
        let a = s.dispatch(p);
        let b = s.dispatch(p);
        match (a, b) {
            (Action::Handle(i), Action::Handle(j)) => assert_eq!(i, j),
            (Action::Serve(f), Action::Serve(g)) => {
                assert_eq!(f.path, g.path);
                assert_eq!(f.content_type, g.content_type);
            }
            (Action::NotFound, Action::NotFound) => {}
            _ => panic!("two dispatches of one path differ"),
        }
    }
}
