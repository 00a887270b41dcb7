//! Decoding of a request from the bytes of the first read of a connection,
//! and completion of its body from the reads that follow.
use vstd::prelude::*;
use vstd::string::{StrSliceExecFns, StringSliceAdditionalSpecFns};
use vstd::utf8::{decode_utf8, valid_utf8};

use crate::http::{ContentType, Method, Protocol, StatusCode};
use crate::text::{
    chars_of, find_char, find_from, find_seq, index_from, lemma_index_from_bounds,
    lemma_find_from_bounds, next_word, parse_size, parse_size_at, pieces, split_on, word,
};

verus! {

/// A decoded request. The body holds at most `content_size` bytes.
#[derive(Debug)]
pub struct Request {
    pub path: String,
    pub params: Vec<(String, String)>,
    pub method: Method,
    pub protocol: Protocol,
    pub content: Vec<u8>,
    pub content_type: ContentType,
    pub content_size: usize,
    pub status: StatusCode,
}

/// Whether a blank line (`\r\n\r\n`) starts at `i`.
pub open spec fn blank_line_at(b: Seq<u8>, i: int) -> bool {
    b[i] == 13 && b[i + 1] == 10 && b[i + 2] == 13 && b[i + 3] == 10
}

/// First position at or after `i` where a blank line starts, or -1.
pub open spec fn blank_line_from(b: Seq<u8>, i: int) -> int
    decreases b.len() + 1 - i,
{
    if i + 4 > b.len() {
        -1
    } else if blank_line_at(b, i) {
        i
    } else {
        blank_line_from(b, i + 1)
    }
}

/// Where the head of the request ends: the first blank line, or -1.
pub open spec fn head_end(b: Seq<u8>) -> int {
    blank_line_from(b, 0)
}

/// The request line and header lines: everything before the first blank
/// line, or all of `b` when there is none.
pub open spec fn head_bytes(b: Seq<u8>) -> Seq<u8> {
    if head_end(b) >= 0 {
        b.subrange(0, head_end(b))
    } else {
        b
    }
}

/// The head read as UTF-8 text; empty when it is not well-formed UTF-8.
pub open spec fn head_text(b: Seq<u8>) -> Seq<char> {
    if valid_utf8(head_bytes(b)) {
        decode_utf8(head_bytes(b))
    } else {
        Seq::empty()
    }
}

/// The path of a request target: what precedes the first `?`.
pub open spec fn path_of(target: Seq<char>) -> Seq<char> {
    let q = index_from(target, '?', 0);
    if q < 0 {
        target
    } else {
        target.subrange(0, q)
    }
}

/// The query of a request target: what follows the first `?`.
pub open spec fn query_of(target: Seq<char>) -> Seq<char> {
    let q = index_from(target, '?', 0);
    if q < 0 {
        Seq::empty()
    } else {
        target.subrange(q + 1, target.len() as int)
    }
}

/// A query piece split at its first `=`; without one the value is empty.
pub open spec fn param_of(piece: Seq<char>) -> (Seq<char>, Seq<char>) {
    let e = index_from(piece, '=', 0);
    if e < 0 {
        (piece, Seq::empty())
    } else {
        (piece.subrange(0, e), piece.subrange(e + 1, piece.len() as int))
    }
}

/// The parameters of a query, in order, one for each piece between `&`s.
pub open spec fn params_of(query: Seq<char>) -> Seq<(Seq<char>, Seq<char>)> {
    split_on(query, '&').map_values(|p: Seq<char>| param_of(p))
}

/// The parameters as character sequences.
pub open spec fn params_view(v: Seq<(String, String)>) -> Seq<(Seq<char>, Seq<char>)> {
    v.map_values(|p: (String, String)| (p.0@, p.1@))
}

pub open spec fn length_header() -> Seq<char> {
    "Content-Length: "@
}

/// The declared body length: the number after the first `Content-Length: `,
/// up to the next carriage return; 0 when there is none or it does not parse.
pub open spec fn content_length(t: Seq<char>) -> nat {
    let k = find_from(t, length_header(), 0);
    if k < 0 {
        0
    } else {
        let v = k + length_header().len();
        let r = index_from(t, '\r', v);
        let end = if r < 0 {
            t.len() as int
        } else {
            r
        };
        match parse_size(t.subrange(v, end)) {
            Some(n) => n,
            None => 0,
        }
    }
}

/// At most the first `n` elements of `s`.
pub open spec fn first_n(s: Seq<u8>, n: nat) -> Seq<u8> {
    if s.len() <= n {
        s
    } else {
        s.subrange(0, n as int)
    }
}

/// The bytes after the first blank line.
pub open spec fn after_head(b: Seq<u8>) -> Seq<u8> {
    b.subrange(head_end(b) + 4, b.len() as int)
}

/// The body bytes that came with the head: at most `n` of those after the
/// first blank line.
pub open spec fn initial_body(b: Seq<u8>, n: nat) -> Seq<u8> {
    if head_end(b) < 0 {
        Seq::empty()
    } else {
        first_n(after_head(b), n)
    }
}

/// A body of declared length `n` after `chunk` has been read: the bytes of
/// `chunk` are added until the body is complete, the rest is left alone.
pub open spec fn appended(body: Seq<u8>, n: nat, chunk: Seq<u8>) -> Seq<u8> {
    if body.len() >= n {
        body
    } else if chunk.len() <= n - body.len() {
        body + chunk
    } else {
        body + chunk.subrange(0, n - body.len())
    }
}

/// Relies on `std::str::from_utf8`: it accepts exactly the well-formed UTF-8
/// byte strings and gives them back, unchanged, as text.
#[verifier::external_body]
fn utf8_text(b: &[u8]) -> (r: Option<&str>)
    ensures
        r is Some <==> valid_utf8(b@),
        r matches Some(s) ==> s.spec_bytes() == b@,
{
    std::str::from_utf8(b).ok()
}

/// Position of the first blank line in `b`, if any.
fn find_blank_line(b: &[u8]) -> (r: Option<usize>)
    ensures
        match r {
            Some(t) => t == head_end(b@),
            None => head_end(b@) == -1,
        },
{
    let n = b.len();
    let mut i: usize = 0;
    while i < n && 4 <= n - i
        invariant
            n == b@.len(),
            blank_line_from(b@, 0) == blank_line_from(b@, i as int),
        decreases n - i,
    {
        if b[i] == 13 && b[i + 1] == 10 && b[i + 2] == 13 && b[i + 3] == 10 {
            return Some(i);
        }
        i = i + 1;
    }
    None
}

/// Splits one query piece at its first `=`.
fn param(piece: &str) -> (r: (String, String))
    ensures
        (r.0@, r.1@) == param_of(piece@),
{
    let v = chars_of(piece);
    proof {
        lemma_index_from_bounds(v@, '=', 0);
    }
    match find_char(&v, '=', 0) {
        Some(e) => (
            piece.substring_char(0, e).to_owned(),
            piece.substring_char(e + 1, v.len()).to_owned(),
        ),
        None => {
            assert(piece@.subrange(0, v@.len() as int) == piece@);
            (piece.substring_char(0, v.len()).to_owned(), String::new())
        },
    }
}

/// The parameters of a query string.
fn params(query: &str) -> (r: Vec<(String, String)>)
    ensures
        params_view(r@) == params_of(query@),
{
    let q = chars_of(query);
    let mut r: Vec<(String, String)> = Vec::new();
    let ghost done: Seq<Seq<char>> = Seq::empty();
    let mut start: usize = 0;
    let mut i: usize = 0;
    while i < q.len()
        invariant
            q@ == query@,
            start <= i <= q@.len(),
            done + pieces(q@, '&', start as int, i as int) == split_on(q@, '&'),
            params_view(r@) == done.map_values(|p: Seq<char>| param_of(p)),
        decreases q@.len() - i,
    {
        if q[i] == '&' {
            let piece = query.substring_char(start, i);
            let kv = param(piece);
            proof {
                let x = q@.subrange(start as int, i as int);
                let rest = pieces(q@, '&', (i + 1) as int, (i + 1) as int);
                assert(pieces(q@, '&', start as int, i as int) == seq![x] + rest);
                assert(done + (seq![x] + rest) == done.push(x) + rest);
                assert(params_view(r@.push(kv)) == params_view(r@).push((kv.0@, kv.1@)));
                assert(done.push(x).map_values(|p: Seq<char>| param_of(p)) == done.map_values(
                    |p: Seq<char>| param_of(p),
                ).push(param_of(x)));
                done = done.push(x);
            }
            r.push(kv);
            start = i + 1;
        }
        i = i + 1;
    }
    let piece = query.substring_char(start, q.len());
    let kv = param(piece);
    proof {
        let x = q@.subrange(start as int, q@.len() as int);
        assert(pieces(q@, '&', start as int, i as int) == seq![x]);
        assert(done + seq![x] == done.push(x));
        assert(params_view(r@.push(kv)) == params_view(r@).push((kv.0@, kv.1@)));
        assert(done.push(x).map_values(|p: Seq<char>| param_of(p)) == done.map_values(
            |p: Seq<char>| param_of(p),
        ).push(param_of(x)));
    }
    r.push(kv);
    r
}

/// The declared length of `text`'s body, as `content_length` states it.
fn declared_length(t: &Vec<char>) -> (r: usize)
    ensures
        r as nat == content_length(t@),
{
    let h = chars_of("Content-Length: ");
    proof {
        lemma_find_from_bounds(t@, h@, 0);
    }
    match find_seq(t, &h, 0) {
        None => 0,
        Some(k) => {
            let n = t.len();
            assert(k + h@.len() <= n);
            let v = k + h.len();
            proof {
                lemma_index_from_bounds(t@, '\r', v as int);
            }
            let end = match find_char(t, '\r', v) {
                Some(e) => e,
                None => t.len(),
            };
            match parse_size_at(t, v, end) {
                Some(n) => n,
                None => 0,
            }
        },
    }
}

/// Copies at most `n` of the bytes of `b` that follow position `from`.
fn take_after(b: &[u8], from: usize, n: usize) -> (r: Vec<u8>)
    requires
        from <= b@.len(),
    ensures
        r@ == (if b@.len() - from <= n {
            b@.subrange(from as int, b@.len() as int)
        } else {
            b@.subrange(from as int, from + n)
        }),
{
    let n_all = b.len();
    let avail = n_all - from;
    let take = if avail <= n {
        avail
    } else {
        n
    };
    let mut r: Vec<u8> = Vec::new();
    let mut i: usize = 0;
    while i < take
        invariant
            n_all == b@.len(),
            from <= n_all,
            take <= avail == n_all - from,
            i <= take,
            r@ == b@.subrange(from as int, from + i),
        decreases take - i,
    {
        r.push(b[from + i]);
        assert(b@.subrange(from as int, from + i + 1) == b@.subrange(from as int, from + i).push(
            b@[from + i],
        ));
        i = i + 1;
    }
    assert(r@ =~= (if b@.len() - from <= n {
        b@.subrange(from as int, b@.len() as int)
    } else {
        b@.subrange(from as int, from + n)
    }));
    r
}

proof fn lemma_blank_line_bounds(b: Seq<u8>, i: int)
    requires
        0 <= i,
    ensures
        blank_line_from(b, i) == -1 || (i <= blank_line_from(b, i) && blank_line_from(b, i) + 4
            <= b.len()),
    decreases b.len() + 1 - i,
{
    if i + 4 <= b.len() && !blank_line_at(b, i) {
        lemma_blank_line_bounds(b, i + 1);
    }
}

impl Request {
    /// How many body bytes are still to come.
    pub open spec fn missing(&self) -> nat {
        if self.content@.len() < self.content_size {
            (self.content_size - self.content@.len()) as nat
        } else {
            0
        }
    }

    /// Decodes a request from the bytes of the first read of a connection.
    ///
    /// Decoding never fails: the method is the first word of the head, the
    /// target the second and the protocol label the third, each missing
    /// word being empty. The path is the target up to the first `?`, the
    /// parameters are the pieces of the rest between `&`s, each split at its
    /// first `=`. An empty query still gives one parameter, two empty
    /// strings. A head that is not UTF-8 reads as empty. The body holds the
    /// bytes after the blank line, up to the declared length; the rest of
    /// the body is added by `extend_body`.
    pub fn from(input: &[u8]) -> (r: Request)
        ensures
            r.method == Method::named(word(head_text(input@), 0, 0)),
            r.path@ == path_of(word(head_text(input@), 1, 0)),
            params_view(r.params@) == params_of(query_of(word(head_text(input@), 1, 0))),
            r.protocol == Protocol::named(word(head_text(input@), 2, 0)),
            r.content_size as nat == content_length(head_text(input@)),
            r.content@ == initial_body(input@, r.content_size as nat),
            r.content_type == ContentType::Unknown,
            r.status == StatusCode::Http200Ok,
    {
        let total = input.len();
        let end = find_blank_line(input);
        proof {
            lemma_blank_line_bounds(input@, 0);
        }
        let head: &[u8] = match end {
            Some(t) => input.split_at(t).0,
            None => input,
        };
        assert(head@ == head_bytes(input@));
        let text: &str = match utf8_text(head) {
            Some(s) => {
                proof {
                    vstd::utf8::encode_utf8_decode_utf8(s@);
                }
                s
            },
            None => {
                proof {
                    reveal_strlit("");
                }
                ""
            },
        };
        assert(text@ == head_text(input@));
        let t = chars_of(text);
        let (s0, e0) = next_word(&t, 0);
        let (s1, e1) = next_word(&t, e0);
        let (s2, e2) = next_word(&t, e1);
        assert(word(t@, 0, 0) == t@.subrange(s0 as int, e0 as int));
        assert(word(t@, 0, e0 as int) == t@.subrange(s1 as int, e1 as int));
        assert(word(t@, 1, 0) == word(t@, 0, e0 as int));
        assert(word(t@, 0, e1 as int) == t@.subrange(s2 as int, e2 as int));
        assert(word(t@, 1, e0 as int) == word(t@, 0, e1 as int));
        assert(word(t@, 2, 0) == word(t@, 1, e0 as int));
        let method = Method::from_str(text.substring_char(s0, e0));
        let target = text.substring_char(s1, e1);
        let protocol = Protocol::from_str(text.substring_char(s2, e2));
        let tv = chars_of(target);
        proof {
            lemma_index_from_bounds(tv@, '?', 0);
        }
        let (path, query) = match find_char(&tv, '?', 0) {
            Some(q) => (target.substring_char(0, q), target.substring_char(q + 1, tv.len())),
            None => {
                proof {
                    reveal_strlit("");
                }
                assert(target@.subrange(0, tv@.len() as int) == target@);
                assert(""@ =~= Seq::<char>::empty());
                (target.substring_char(0, tv.len()), "")
            },
        };
        let content_size = declared_length(&t);
        let content = match end {
            Some(e) => {
                assert(e + 4 <= total);
                take_after(input, e + 4, content_size)
            },
            None => Vec::new(),
        };
        proof {
            if end is Some {
                let rest = after_head(input@);
                if rest.len() > content_size {
                    assert(rest.subrange(0, content_size as int) =~= input@.subrange(
                        head_end(input@) + 4,
                        head_end(input@) + 4 + content_size,
                    ));
                }
            }
        }
        Request {
            path: path.to_owned(),
            params: params(query),
            method,
            protocol,
            content,
            content_type: ContentType::Unknown,
            content_size,
            status: StatusCode::Http200Ok,
        }
    }

    /// How many body bytes are still to come.
    pub fn body_missing(&self) -> (r: usize)
        ensures
            r as nat == self.missing(),
    {
        if self.content.len() < self.content_size {
            self.content_size - self.content.len()
        } else {
            0
        }
    }

    /// Adds the bytes of a further read to the body, as many as it still
    /// lacks; everything else stays as it was.
    pub fn extend_body(&mut self, chunk: &[u8])
        ensures
            final(self).content@ == appended(old(self).content@, old(self).content_size as nat, chunk@),
            final(self).content_size == old(self).content_size,
            final(self).path == old(self).path,
            final(self).params == old(self).params,
            final(self).method == old(self).method,
            final(self).protocol == old(self).protocol,
            final(self).content_type == old(self).content_type,
            final(self).status == old(self).status,
    {
        let need = self.body_missing();
        let take = if chunk.len() <= need {
            chunk.len()
        } else {
            need
        };
        let ghost before = self.content@;
        let mut i: usize = 0;
        while i < take
            invariant
                take <= chunk@.len(),
                i <= take,
                self.content@ == before + chunk@.subrange(0, i as int),
                self.content_size == old(self).content_size,
                self.path == old(self).path,
                self.params == old(self).params,
                self.method == old(self).method,
                self.protocol == old(self).protocol,
                self.content_type == old(self).content_type,
                self.status == old(self).status,
            decreases take - i,
        {
            self.content.push(chunk[i]);
            assert(chunk@.subrange(0, i + 1) == chunk@.subrange(0, i as int).push(chunk@[i as int]));
            i = i + 1;
        }
        assert(chunk@.subrange(0, chunk@.len() as int) == chunk@);
    }
}

/// Adding a read to a body that holds a prefix of the stream keeps it a
/// prefix: the body is the first `n` bytes of all that has arrived.
pub proof fn lemma_appended_prefix(a: Seq<u8>, n: nat, c: Seq<u8>)
    ensures
        appended(first_n(a, n), n, c) == first_n(a + c, n),
{
    if a.len() >= n {
        assert(first_n(a + c, n) =~= first_n(a, n));
    } else if c.len() > n - a.len() {
        assert(a + c.subrange(0, n - a.len()) =~= (a + c).subrange(0, n as int));
    }
}

/// A body declared with `Content-Length: n` and sent in the first read and
/// two more equals the first `n` bytes of all that followed the blank line,
/// however those bytes were split between the reads.
pub proof fn lemma_body_across_reads(b: Seq<u8>, c1: Seq<u8>, c2: Seq<u8>)
    requires
        head_end(b) >= 0,
    ensures
        ({
            let n = content_length(head_text(b));
            appended(appended(initial_body(b, n), n, c1), n, c2) == first_n(
                after_head(b) + c1 + c2,
                n,
            )
        }),
{
    let n = content_length(head_text(b));
    lemma_appended_prefix(after_head(b), n, c1);
    lemma_appended_prefix(after_head(b) + c1, n, c2);
}

} // verus!
