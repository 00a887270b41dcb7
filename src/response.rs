//! Responses and their encoding as HTTP/1.1 bytes.
use vstd::prelude::*;
use vstd::string::StringSliceAdditionalSpecFns;
use vstd::utf8::encode_utf8;

use crate::http::{ContentType, StatusCode};
use crate::text::{all_digits, digits_value, is_digit, parse_size, unsigned_part};

verus! {

/// The body of a response.
pub enum Content {
    HeapString(String),
    StaticString(&'static str),
    Raw(Vec<u8>),
    Empty,
}

/// A response: body, media type and status.
pub struct Response {
    pub body: Content,
    pub content_type: ContentType,
    pub status: StatusCode,
}

/// The bytes of a body as they go on the wire: text in UTF-8, raw bytes as
/// they are, nothing for an empty body.
pub open spec fn body_bytes(c: Content) -> Seq<u8> {
    match c {
        Content::HeapString(s) => encode_utf8(s@),
        Content::StaticString(s) => encode_utf8(s@),
        Content::Raw(v) => v@,
        Content::Empty => Seq::empty(),
    }
}

/// The decimal digits of `n`, most significant first, in ASCII.
pub open spec fn decimal(n: nat) -> Seq<u8>
    decreases n,
{
    if n < 10 {
        seq![(48 + n) as u8]
    } else {
        decimal(n / 10).push((48 + n % 10) as u8)
    }
}

pub open spec fn status_prefix() -> Seq<char> {
    "HTTP/1.1 "@
}

pub open spec fn length_prefix() -> Seq<char> {
    "\r\nContent-Length: "@
}

pub open spec fn type_prefix() -> Seq<char> {
    "\r\nContent-Type: "@
}

pub open spec fn head_suffix() -> Seq<char> {
    "\r\n\r\n"@
}

/// The status line and headers for a body of `len` bytes.
pub open spec fn head_of(status: StatusCode, len: nat, content_type: ContentType) -> Seq<u8> {
    encode_utf8(status_prefix()) + encode_utf8(status.text()) + encode_utf8(length_prefix())
        + decimal(len) + encode_utf8(type_prefix()) + encode_utf8(content_type.text())
        + encode_utf8(head_suffix())
}

/// A response on the wire: its head, then its body.
pub open spec fn encoded(r: Response) -> Seq<u8> {
    head_of(r.status, body_bytes(r.body).len(), r.content_type) + body_bytes(r.body)
}

pub open spec fn not_found_page() -> Seq<char> {
    "
<!DOCTYPE html>
<html lang=\"en\">
<head><title>404 Not Found</title></head>
<body><h1>Not Found</h1>The requested URL was not found on this server.</body>
</html>"@
}

pub open spec fn server_error_page() -> Seq<char> {
    "
<!DOCTYPE html>
<html lang=\"en\">
<head><title>500 Internal Server Error</title></head>
<body><h1>Iternal Server Error</h1>Yet another error to catch.</body>
</html>"@
}

/// Whether `r` is the built-in answer for a resource that is not there.
pub open spec fn is_not_found(r: Response) -> bool {
    &&& r.status == StatusCode::Http404NotFound
    &&& r.content_type == ContentType::TextHtml
    &&& r.body matches Content::StaticString(s) && s@ == not_found_page()
}

/// Whether `r` is the built-in answer for a file that could not be read.
pub open spec fn is_server_error(r: Response) -> bool {
    &&& r.status == StatusCode::Http500InternalServerError
    &&& r.content_type == ContentType::TextHtml
    &&& r.body matches Content::StaticString(s) && s@ == server_error_page()
}

/// The built-in 404 page.
pub fn not_found() -> (r: Response)
    ensures
        is_not_found(r),
{
    Response {
        body: Content::StaticString(
            "
<!DOCTYPE html>
<html lang=\"en\">
<head><title>404 Not Found</title></head>
<body><h1>Not Found</h1>The requested URL was not found on this server.</body>
</html>",
        ),
        status: StatusCode::Http404NotFound,
        content_type: ContentType::TextHtml,
    }
}

/// The built-in 500 page.
pub fn server_error() -> (r: Response)
    ensures
        is_server_error(r),
{
    Response {
        body: Content::StaticString(
            "
<!DOCTYPE html>
<html lang=\"en\">
<head><title>500 Internal Server Error</title></head>
<body><h1>Iternal Server Error</h1>Yet another error to catch.</body>
</html>",
        ),
        status: StatusCode::Http500InternalServerError,
        content_type: ContentType::TextHtml,
    }
}

/// Appends the bytes of a string slice.
fn push_str(out: &mut Vec<u8>, s: &str)
    ensures
        final(out)@ == old(out)@ + encode_utf8(s@),
{
    let b = s.as_bytes();
    let ghost before = out@;
    let mut i: usize = 0;
    while i < b.len()
        invariant
            b@ == s.spec_bytes(),
            i <= b@.len(),
            out@ == before + b@.subrange(0, i as int),
        decreases b@.len() - i,
    {
        out.push(b[i]);
        assert(b@.subrange(0, i + 1) == b@.subrange(0, i as int).push(b@[i as int]));
        i = i + 1;
    }
    assert(b@.subrange(0, b@.len() as int) == b@);
}

/// Appends the bytes of a byte vector.
fn push_bytes(out: &mut Vec<u8>, b: &Vec<u8>)
    ensures
        final(out)@ == old(out)@ + b@,
{
    let ghost before = out@;
    let mut i: usize = 0;
    while i < b.len()
        invariant
            i <= b@.len(),
            out@ == before + b@.subrange(0, i as int),
        decreases b@.len() - i,
    {
        out.push(b[i]);
        assert(b@.subrange(0, i + 1) == b@.subrange(0, i as int).push(b@[i as int]));
        i = i + 1;
    }
    assert(b@.subrange(0, b@.len() as int) == b@);
}

/// Appends the decimal digits of `n`.
fn push_decimal(out: &mut Vec<u8>, n: usize)
    ensures
        final(out)@ == old(out)@ + decimal(n as nat),
    decreases n,
{
    if n >= 10 {
        push_decimal(out, n / 10);
    }
    out.push((48 + n % 10) as u8);
}

impl Content {
    /// The number of bytes of the body on the wire.
    pub fn byte_len(&self) -> (r: usize)
        ensures
            r as nat == body_bytes(*self).len(),
    {
        match self {
            Content::HeapString(s) => s.as_str().as_bytes().len(),
            Content::StaticString(s) => s.as_bytes().len(),
            Content::Raw(v) => v.len(),
            Content::Empty => 0,
        }
    }
}

impl Response {
    /// The status line and headers: `HTTP/1.1 <status>`, `Content-Length`
    /// with the body's length in bytes, `Content-Type`, and a blank line.
    pub fn head(&self) -> (r: Vec<u8>)
        ensures
            r@ == head_of(self.status, body_bytes(self.body).len(), self.content_type),
    {
        let mut out: Vec<u8> = Vec::new();
        push_str(&mut out, "HTTP/1.1 ");
        push_str(&mut out, self.status.as_str());
        push_str(&mut out, "\r\nContent-Length: ");
        push_decimal(&mut out, self.body.byte_len());
        push_str(&mut out, "\r\nContent-Type: ");
        push_str(&mut out, self.content_type.as_str());
        push_str(&mut out, "\r\n\r\n");
        out
    }

    /// The whole response as it goes on the wire.
    pub fn encode(&self) -> (r: Vec<u8>)
        ensures
            r@ == encoded(*self),
    {
        let mut out = self.head();
        match &self.body {
            Content::HeapString(s) => push_str(&mut out, s.as_str()),
            Content::StaticString(s) => push_str(&mut out, s),
            Content::Raw(v) => push_bytes(&mut out, v),
            Content::Empty => {},
        }
        proof {
            if self.body is Empty {
                assert(out@ == out@ + Seq::<u8>::empty());
            }
        }
        out
    }
}

/// ASCII bytes read as characters.
pub open spec fn ascii_chars(b: Seq<u8>) -> Seq<char> {
    b.map_values(|x: u8| x as char)
}

proof fn lemma_decimal_digits(n: nat)
    ensures
        decimal(n).len() > 0,
        all_digits(ascii_chars(decimal(n))),
        digits_value(ascii_chars(decimal(n))) == n,
    decreases n,
{
    let c = ascii_chars(decimal(n));
    if n < 10 {
        assert(c.drop_last() =~= Seq::<char>::empty());
        assert(c.last() == ((48 + n) as u8) as char);
        assert((((48 + n) as u8) as char) as u32 == 48 + n);
        assert(('0' as u32) == 48);
        assert(digits_value(c.drop_last()) == 0);
    } else {
        lemma_decimal_digits(n / 10);
        let d = ascii_chars(decimal(n / 10));
        assert(c =~= d.push(((48 + n % 10) as u8) as char));
        assert(c.drop_last() =~= d);
        assert((((48 + n % 10) as u8) as char) as u32 == 48 + n % 10);
        assert(('0' as u32) == 48);
        assert(c.last() == ((48 + n % 10) as u8) as char);
        assert((n / 10) * 10 + n % 10 == n);
        assert forall|k: int| 0 <= k < c.len() implies is_digit(#[trigger] c[k]) by {
            if k < d.len() {
                assert(c[k] == d[k]);
            }
        }
    }
}

/// The value that the encoder writes in `Content-Length` reads back, through
/// the decoder's parser, as the number of body bytes, and exactly those bytes
/// follow the head.
pub proof fn lemma_length_round_trip(r: Response)
    requires
        body_bytes(r.body).len() <= usize::MAX,
    ensures
        ({
            let len = body_bytes(r.body).len();
            let head = head_of(r.status, len, r.content_type);
            &&& encoded(r) == head + body_bytes(r.body)
            &&& parse_size(ascii_chars(decimal(len))) == Some(len)
            &&& encoded(r).len() == head.len() + len
            &&& encoded(r).subrange(head.len() as int, encoded(r).len() as int) == body_bytes(r.body)
        }),
{
    let len = body_bytes(r.body).len();
    lemma_decimal_digits(len);
    let c = ascii_chars(decimal(len));
    assert(c[0] != '+') by {
        assert(is_digit(c[0]));
    }
    assert(unsigned_part(c) == c);
    let head = head_of(r.status, len, r.content_type);
    assert(encoded(r).subrange(head.len() as int, encoded(r).len() as int) =~= body_bytes(r.body));
}

} // verus!
