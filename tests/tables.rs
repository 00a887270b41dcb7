use httpie::http::{ContentType, Method, Protocol, StatusCode};

#[test]
fn methods() {
    assert_eq!(Method::from_str("GET"), Method::Get);
    assert_eq!(Method::from_str("POST"), Method::Post);
    assert_eq!(Method::from_str("PUT"), Method::Put);
    assert_eq!(Method::from_str("get"), Method::Unknown);
    assert_eq!(Method::from_str(""), Method::Unknown);
    assert_eq!(Method::Get.as_str(), "GET");
    assert_eq!(Method::Unknown.as_str(), "Unknown");
}

#[test]
fn protocols() {
    assert_eq!(Protocol::from_str("HTTP 1.1"), Protocol::V11);
    assert_eq!(Protocol::from_str("HTTP 3.0"), Protocol::V30);
    assert_eq!(Protocol::from_str("HTTP/1.1"), Protocol::Unknown);
    assert_eq!(Protocol::V20.as_str(), "HTTP 2.0");
    assert_eq!(Protocol::V10.as_str(), "HTTP 1.0");
}

#[test]
fn content_types() {
    assert_eq!(ContentType::from_str("text/html"), ContentType::TextHtml);
    assert_eq!(ContentType::from_str("text/javascript"), ContentType::ApplicationJavascript);
    assert_eq!(ContentType::from_str("text/xml"), ContentType::ApplicationXml);
    assert_eq!(ContentType::from_str("image/ico"), ContentType::ImageIcon);
    assert_eq!(ContentType::from_str("video/webm"), ContentType::AudioWebm);
    assert_eq!(ContentType::from_str("*/*"), ContentType::Unknown);
    assert_eq!(ContentType::from_str("text/rtf"), ContentType::Unknown);
    assert_eq!(ContentType::ApplicationJson.as_str(), "application/json");
    assert_eq!(ContentType::ImageIcon.as_str(), "image/vnd.microsoft.icon");
    assert_eq!(ContentType::Unknown.as_str(), "*/*");
}

#[test]
fn guesses() {
    assert_eq!(ContentType::guess("www/index.html"), ContentType::TextHtml);
    assert_eq!(ContentType::guess("a/b/c.min.js"), ContentType::ApplicationJavascript);
    assert_eq!(ContentType::guess("x.json"), ContentType::ApplicationJson);
    assert_eq!(ContentType::guess("song.mp3"), ContentType::AudioMpeg);
    assert_eq!(ContentType::guess("clip.webm"), ContentType::AudioWebm);
    assert_eq!(ContentType::guess("photo.jpeg"), ContentType::Unknown);
    assert_eq!(ContentType::guess("README"), ContentType::Unknown);
    assert_eq!(ContentType::guess(".html"), ContentType::Unknown);
    assert_eq!(ContentType::guess("dir.html/file"), ContentType::Unknown);
    assert_eq!(ContentType::guess("a.HTML"), ContentType::Unknown);
    assert_eq!(ContentType::guess(""), ContentType::Unknown);
    assert_eq!(ContentType::guess("www/.hidden.css"), ContentType::TextCss);
}

#[test]
fn status_codes() {
    assert_eq!(StatusCode::Http200Ok.as_str(), "200 OK");
    assert_eq!(StatusCode::Http404NotFound.as_str(), "404 Not Found");
    assert_eq!(StatusCode::Http526InvalidSslCertificate.as_str(), "526 Invalid SSL Certificate");
    assert_eq!(StatusCode::from_str("418 I Am A Teapot"), StatusCode::Http418IAmATeapot);
    assert_eq!(StatusCode::from_str("500 Internal Server Error"), StatusCode::Http500InternalServerError);
    assert_eq!(StatusCode::from_str("200"), StatusCode::Unknown);
    assert_eq!(StatusCode::from_str("Unknown"), StatusCode::Unknown);
}

#[test]
fn status_text_round_trip() {
    let all = [
        StatusCode::Http100Continue,
        StatusCode::Http206PartialContent,
        StatusCode::Http302MovedTemporarily,
        StatusCode::Http414UriTooLong,
        StatusCode::Http422UnprocessableEntity,
        StatusCode::Http506VariantAlsoNegotiates,
        StatusCode::Http511NetworkAuthenticationRequired,
    ];
    for s in all {
        assert_eq!(StatusCode::from_str(s.as_str()), s);
    }
}
