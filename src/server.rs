//! Server configuration, the route table and the dispatch decision.
use vstd::prelude::*;
use vstd::string::{StrSliceExecFns, StringExecFns};

use crate::http::ContentType;
use crate::response::{not_found, server_error, is_not_found, is_server_error, Content, Response};
use crate::text::{chars_of, pieces, split_on, str_eq};

verus! {

/// An exact-path route table. Each path is bound to at most one handler.
pub struct Routes<H> {
    entries: Vec<(String, H)>,
}

/// Where a request goes.
pub enum Action {
    /// To the handler at this position of the route table.
    Handle(usize),
    /// To a file under the public directory.
    Serve(StaticFile),
    /// Nowhere: the built-in 404 answers it.
    NotFound,
}

/// A file to be served, and the media type guessed for it.
pub struct StaticFile {
    pub path: String,
    pub content_type: ContentType,
}

/// What reading a file gave.
pub enum FileRead {
    /// No regular file is at the path.
    Missing,
    /// The file is there but could not be read.
    Failed,
    /// The file read as text.
    Text(String),
    /// The file read as bytes.
    Bytes(Vec<u8>),
}

/// Configuration of a server: where it listens, the public directory, the
/// number of workers and the route table.
pub struct Server<H> {
    pub address: String,
    pub public: Option<String>,
    pub max_connections: usize,
    pub routes: Routes<H>,
}

/// Whether the paths are pairwise distinct.
pub open spec fn distinct_paths(p: Seq<Seq<char>>) -> bool {
    forall|i: int, j: int| 0 <= i < j < p.len() ==> p[i] != p[j]
}

/// Position of `path` in `p`, or -1.
pub open spec fn position(p: Seq<Seq<char>>, path: Seq<char>) -> int {
    if exists|i: int| 0 <= i < p.len() && p[i] == path {
        choose|i: int| 0 <= i < p.len() && p[i] == path
    } else {
        -1
    }
}

/// In a sequence of distinct paths, the position of an element is where it
/// stands.
pub proof fn lemma_position(p: Seq<Seq<char>>, i: int)
    requires
        distinct_paths(p),
        0 <= i < p.len(),
    ensures
        position(p, p[i]) == i,
{
    let c = choose|k: int| 0 <= k < p.len() && p[k] == p[i];
    if c != i {
        if c < i {
            assert(p[c] != p[i]);
        } else {
            assert(p[i] != p[c]);
        }
    }
}

impl<H> Routes<H> {
    /// The bound paths, in the order they were added.
    pub closed spec fn paths(&self) -> Seq<Seq<char>> {
        self.entries@.map_values(|e: (String, H)| e.0@)
    }

    /// The bound handlers, in the same order.
    pub closed spec fn handlers(&self) -> Seq<H> {
        self.entries@.map_values(|e: (String, H)| e.1)
    }

    pub open spec fn wf(&self) -> bool {
        &&& distinct_paths(self.paths())
        &&& self.paths().len() == self.handlers().len()
    }

    /// An empty table.
    pub fn new() -> (r: Self)
        ensures
            r.wf(),
            r.paths().len() == 0,
    {
        let r = Routes { entries: Vec::new() };
        assert(r.paths() =~= Seq::empty());
        assert(r.handlers() =~= Seq::empty());
        r
    }

    /// Position of `path` in the table, if it is bound.
    pub fn find(&self, path: &str) -> (r: Option<usize>)
        requires
            self.wf(),
        ensures
            match r {
                Some(i) => i < self.paths().len() && self.paths()[i as int] == path@,
                None => !self.paths().contains(path@),
            },
            r is Some ==> r->0 == position(self.paths(), path@),
            r is None ==> position(self.paths(), path@) == -1,
    {
        let mut i: usize = 0;
        while i < self.entries.len()
            invariant
                self.wf(),
                i <= self.entries@.len(),
                forall|k: int| 0 <= k < i ==> self.paths()[k] != path@,
            decreases self.entries@.len() - i,
        {
            if str_eq(self.entries[i].0.as_str(), path) {
                assert(self.paths()[i as int] == path@);
                let ghost c = choose|k: int| 0 <= k < self.paths().len() && self.paths()[k] == path@;
                assert(c == i as int) by {
                    if c != i as int {
                        assert(self.paths()[c] == self.paths()[i as int]);
                    }
                }
                return Some(i);
            }
            i = i + 1;
        }
        None
    }

    /// Binds `path` to `handler`; a handler bound to the same path before is
    /// replaced.
    pub fn add(self, path: &str, handler: H) -> (r: Self)
        requires
            self.wf(),
        ensures
            r.wf(),
            self.paths().contains(path@) ==> r.paths() == self.paths(),
            !self.paths().contains(path@) ==> r.paths() == self.paths().push(path@),
            r.handlers()[position(r.paths(), path@)] == handler,
            position(r.paths(), path@) >= 0,
            forall|q: Seq<char>|
                q != path@ ==> #[trigger] position(r.paths(), q) == position(self.paths(), q)
                    && (position(r.paths(), q) >= 0 ==> r.handlers()[position(r.paths(), q)]
                    == self.handlers()[position(self.paths(), q)]),
    {
        let found = self.find(path);
        let mut entries = self.entries;
        match found {
            Some(i) => {
                let ghost old_entries = entries@;
                let old_entry = entries.remove(i);
                entries.insert(i, (old_entry.0, handler));
                let r = Routes { entries };
                assert(r.paths() =~= self.paths());
                assert(r.handlers() =~= self.handlers().update(i as int, handler));
                proof {
                    lemma_position(r.paths(), i as int);
                    assert forall|q: Seq<char>| q != path@ implies #[trigger] position(r.paths(), q)
                        == position(self.paths(), q) && (position(r.paths(), q) >= 0
                        ==> r.handlers()[position(r.paths(), q)] == self.handlers()[position(
                        self.paths(),
                        q,
                    )]) by {
                        if position(r.paths(), q) >= 0 {
                            let k = position(r.paths(), q);
                            assert(r.paths()[k] == q);
                            assert(k != i);
                        }
                    }
                }
                r
            },
            None => {
                entries.push((String::from_str(path), handler));
                let r = Routes { entries };
                assert(r.paths() =~= self.paths().push(path@));
                assert(r.handlers() =~= self.handlers().push(handler));
                proof {
                    assert(!self.paths().contains(path@));
                    assert(distinct_paths(r.paths())) by {
                        assert forall|a: int, b: int| 0 <= a < b < r.paths().len() implies r.paths()[a]
                            != r.paths()[b] by {
                            if b == self.paths().len() {
                                assert(self.paths()[a] != path@);
                            }
                        }
                    }
                    lemma_position(r.paths(), self.paths().len() as int);
                    assert forall|q: Seq<char>| q != path@ implies #[trigger] position(r.paths(), q)
                        == position(self.paths(), q) && (position(r.paths(), q) >= 0
                        ==> r.handlers()[position(r.paths(), q)] == self.handlers()[position(
                        self.paths(),
                        q,
                    )]) by {
                        if position(r.paths(), q) >= 0 {
                            let k = position(r.paths(), q);
                            assert(r.paths()[k] == q);
                            assert(k < self.paths().len());
                            assert(self.paths()[k] == q);
                            lemma_position(self.paths(), k);
                            lemma_position(r.paths(), k);
                        } else {
                            if self.paths().contains(q) {
                                let k = choose|k: int| 0 <= k < self.paths().len() && self.paths()[k] == q;
                                assert(r.paths()[k] == q);
                            }
                        }
                    }
                }
                r
            },
        }
    }

    /// The handler at position `i`.
    pub fn handler(&self, i: usize) -> (r: &H)
        requires
            i < self.handlers().len(),
        ensures
            *r == self.handlers()[i as int],
    {
        &self.entries[i].1
    }
}

/// Whether one of the slash-separated segments of `path` is `..`.
pub open spec fn climbs(path: Seq<char>) -> bool {
    split_on(path, '/').contains(seq!['.', '.'])
}

/// `path` without one leading slash.
pub open spec fn relative(path: Seq<char>) -> Seq<char> {
    if path.len() > 0 && path[0] == '/' {
        path.drop_first()
    } else {
        path
    }
}

/// `rest` under the directory `root`, with a slash between them unless
/// `root` is empty or already ends with one.
pub open spec fn join(root: Seq<char>, rest: Seq<char>) -> Seq<char> {
    if root.len() == 0 || root.last() == '/' {
        root + rest
    } else {
        root + "/"@ + rest
    }
}

/// The file that a request path names under `root`: `index.html` for `/`.
pub open spec fn file_path(root: Seq<char>, path: Seq<char>) -> Seq<char> {
    if path == "/"@ {
        join(root, "index.html"@)
    } else {
        join(root, relative(path))
    }
}

/// Where a request for `path` goes: to its handler when the path is bound,
/// else to the file it names under the public directory, else nowhere. A
/// path with a `..` segment names no file.
pub open spec fn routed(paths: Seq<Seq<char>>, public: Option<Seq<char>>, path: Seq<char>) -> Option<
    Seq<char>,
> {
    if paths.contains(path) {
        None
    } else {
        match public {
            Some(root) => if climbs(path) {
                None
            } else {
                Some(file_path(root, path))
            },
            None => None,
        }
    }
}

/// The public directory as characters.
pub open spec fn public_view(public: Option<String>) -> Option<Seq<char>> {
    match public {
        Some(p) => Some(p@),
        None => None,
    }
}

/// Whether `r` is where a request for `path` goes, for a route table with
/// these paths and this public directory.
pub open spec fn dispatched(
    paths: Seq<Seq<char>>,
    public: Option<Seq<char>>,
    path: Seq<char>,
    r: Action,
) -> bool {
    match r {
        Action::Handle(i) => paths.contains(path) && i == position(paths, path),
        Action::Serve(f) => {
            &&& routed(paths, public, path) == Some(f.path@)
            &&& f.content_type == crate::http::guessed_type(f.path@)
            &&& !paths.contains(path)
        },
        Action::NotFound => !paths.contains(path) && routed(paths, public, path) is None,
    }
}

/// A bound path goes to its handler whatever the public directory is; the
/// files are not consulted.
pub proof fn lemma_routes_first(
    paths: Seq<Seq<char>>,
    public: Option<Seq<char>>,
    path: Seq<char>,
    r: Action,
)
    requires
        dispatched(paths, public, path, r),
        paths.contains(path),
    ensures
        r matches Action::Handle(i) && i == position(paths, path),
{
}

/// Dispatching is a function of the route table, the public directory and
/// the path: two dispatches of the same request agree on the handler, or on
/// the file and its media type, or on there being neither.
pub proof fn lemma_dispatch_idempotent(
    paths: Seq<Seq<char>>,
    public: Option<Seq<char>>,
    path: Seq<char>,
    a: Action,
    b: Action,
)
    requires
        dispatched(paths, public, path, a),
        dispatched(paths, public, path, b),
    ensures
        a is Handle <==> b is Handle,
        a is Serve <==> b is Serve,
        a is NotFound <==> b is NotFound,
        a matches Action::Handle(i) ==> b matches Action::Handle(j) && i == j,
        a matches Action::Serve(f) ==> b matches Action::Serve(g) && f.path@ == g.path@
            && f.content_type == g.content_type,
{
}

proof fn lemma_last_index_skips(a: Seq<char>, b: Seq<char>, c: char)
    requires
        forall|k: int| 0 <= k < b.len() ==> b[k] != c,
    ensures
        crate::http::last_index_of(a + b, c) == crate::http::last_index_of(a, c),
    decreases b.len(),
{
    if b.len() > 0 {
        assert((a + b).drop_last() == a + b.drop_last());
        lemma_last_index_skips(a, b.drop_last(), c);
    } else {
        assert(a + b == a);
    }
}

/// With a public directory, a request for `/` that no route takes is
/// answered from `index.html` in that directory, as HTML.
pub proof fn lemma_root_serves_index(paths: Seq<Seq<char>>, root: Seq<char>, r: Action)
    requires
        dispatched(paths, Some(root), "/"@, r),
        !paths.contains("/"@),
    ensures
        r matches Action::Serve(f) && f.path@ == join(root, "index.html"@)
            && f.content_type == ContentType::TextHtml,
{
    reveal_strlit("/");
    reveal_strlit("index.html");
    reveal_strlit("html");
    let s = "/"@;
    assert(pieces(s, '/', 1, 1) == seq![s.subrange(1, 1)]);
    assert(pieces(s, '/', 0, 0) == seq![s.subrange(0, 0)] + pieces(s, '/', 1, 1));
    assert(!split_on(s, '/').contains(seq!['.', '.'])) by {
        assert(s.subrange(0, 0) =~= Seq::<char>::empty());
        assert(s.subrange(1, 1) =~= Seq::<char>::empty());
        assert(split_on(s, '/') =~= seq![Seq::<char>::empty(), Seq::<char>::empty()]);
        if split_on(s, '/').contains(seq!['.', '.']) {
            let k = choose|k: int|
                0 <= k < split_on(s, '/').len() && split_on(s, '/')[k] == seq!['.', '.'];
            assert(split_on(s, '/')[k].len() == 0);
        }
    }
    let name = "index.html"@;
    let p = join(root, name);
    assert(forall|k: int| 0 <= k < name.len() ==> name[k] != '/');
    let base = if root.len() == 0 || root.last() == '/' {
        root
    } else {
        root + "/"@
    };
    assert(p == base + name);
    lemma_last_index_skips(base, name, '/');
    let slash = crate::http::last_index_of(base, '/');
    if base.len() > 0 {
        assert(base.last() == '/');
        assert(slash == base.len() - 1);
    } else {
        assert(slash == -1);
    }
    assert(crate::http::file_name(p) =~= name);
    assert(crate::http::last_index_of(name, '.') == 5) by {
        let n1 = name.drop_last();
        let n2 = n1.drop_last();
        let n3 = n2.drop_last();
        let n4 = n3.drop_last();
        assert(n4 =~= seq!['i', 'n', 'd', 'e', 'x', '.']);
        assert(crate::http::last_index_of(n4, '.') == 5);
        assert(crate::http::last_index_of(n3, '.') == 5);
        assert(crate::http::last_index_of(n2, '.') == 5);
        assert(crate::http::last_index_of(n1, '.') == 5);
    }
    assert(name.subrange(6, 10) =~= "html"@);
}

/// Whether one piece of a path is `..`.
fn is_parent(t: &Vec<char>, start: usize, end: usize) -> (r: bool)
    requires
        start <= end <= t@.len(),
    ensures
        r == (t@.subrange(start as int, end as int) == seq!['.', '.']),
{
    if end - start == 2 && t[start] == '.' && t[start + 1] == '.' {
        assert(t@.subrange(start as int, end as int) =~= seq!['.', '.']);
        true
    } else {
        proof {
            let dd = seq!['.', '.'];
            assert(dd.len() == 2 && dd[0] == '.' && dd[1] == '.');
            if t@.subrange(start as int, end as int) == dd {
                assert(t@.subrange(start as int, end as int)[0] == '.');
                assert(t@.subrange(start as int, end as int)[1] == '.');
            }
        }
        false
    }
}

/// Whether a path has a `..` segment.
fn has_parent_segment(path: &str) -> (r: bool)
    ensures
        r == climbs(path@),
{
    let t = chars_of(path);
    let ghost done: Seq<Seq<char>> = Seq::empty();
    let mut found = false;
    let mut start: usize = 0;
    let mut i: usize = 0;
    while i < t.len()
        invariant
            t@ == path@,
            start <= i <= t@.len(),
            done + pieces(t@, '/', start as int, i as int) == split_on(t@, '/'),
            found == done.contains(seq!['.', '.']),
        decreases t@.len() - i,
    {
        if t[i] == '/' {
            let p = is_parent(&t, start, i);
            proof {
                let x = t@.subrange(start as int, i as int);
                let rest = pieces(t@, '/', (i + 1) as int, (i + 1) as int);
                assert(pieces(t@, '/', start as int, i as int) == seq![x] + rest);
                assert(done + (seq![x] + rest) == done.push(x) + rest);
                if found {
                    let k = choose|k: int| 0 <= k < done.len() && done[k] == seq!['.', '.'];
                    assert(done.push(x)[k] == seq!['.', '.']);
                }
                if p {
                    assert(done.push(x)[done.len() as int] == seq!['.', '.']);
                }
                if !found && !p {
                    assert forall|k: int| 0 <= k < done.push(x).len() implies done.push(x)[k]
                        != seq!['.', '.'] by {
                        if k < done.len() {
                            assert(done.push(x)[k] == done[k]);
                        }
                    }
                }
                done = done.push(x);
            }
            found = found || p;
            start = i + 1;
        }
        i = i + 1;
    }
    let p = is_parent(&t, start, t.len());
    proof {
        let x = t@.subrange(start as int, t@.len() as int);
        assert(pieces(t@, '/', start as int, i as int) == seq![x]);
        assert(done + seq![x] == done.push(x));
        if found {
            let k = choose|k: int| 0 <= k < done.len() && done[k] == seq!['.', '.'];
            assert(done.push(x)[k] == seq!['.', '.']);
        }
        if p {
            assert(done.push(x)[done.len() as int] == seq!['.', '.']);
        }
        if !found && !p {
            assert forall|k: int| 0 <= k < done.push(x).len() implies done.push(x)[k] != seq![
                '.',
                '.',
            ] by {
                if k < done.len() {
                    assert(done.push(x)[k] == done[k]);
                }
            }
        }
    }
    found || p
}

/// `rest` under the directory `root`.
fn join_path(root: &str, rest: &str) -> (r: String)
    ensures
        r@ == join(root@, rest@),
{
    let rv = chars_of(root);
    let base = String::from_str(root);
    if rv.len() == 0 || rv[rv.len() - 1] == '/' {
        base.concat(rest)
    } else {
        base.concat("/").concat(rest)
    }
}

/// The file that a request path names under `root`.
fn resolve(root: &str, path: &str) -> (r: String)
    ensures
        r@ == file_path(root@, path@),
{
    if str_eq(path, "/") {
        join_path(root, "index.html")
    } else {
        let t = chars_of(path);
        if t.len() > 0 && t[0] == '/' {
            let rest = path.substring_char(1, t.len());
            assert(rest@ == path@.drop_first());
            join_path(root, rest)
        } else {
            join_path(root, path)
        }
    }
}

/// The response for a file, from what reading it gave: the built-in 404
/// when it is not there, the built-in 500 when it could not be read, and
/// else a 200 that carries its content with the guessed media type.
pub fn file_response(file: StaticFile, read: FileRead) -> (r: Response)
    ensures
        read is Missing ==> is_not_found(r),
        read is Failed ==> is_server_error(r),
        read matches FileRead::Text(s) ==> r.status == crate::http::StatusCode::Http200Ok
            && r.content_type == file.content_type && r.body == Content::HeapString(s),
        read matches FileRead::Bytes(v) ==> r.status == crate::http::StatusCode::Http200Ok
            && r.content_type == file.content_type && r.body == Content::Raw(v),
{
    match read {
        FileRead::Missing => not_found(),
        FileRead::Failed => server_error(),
        FileRead::Text(s) => Response {
            body: Content::HeapString(s),
            status: crate::http::StatusCode::Http200Ok,
            content_type: file.content_type,
        },
        FileRead::Bytes(v) => Response {
            body: Content::Raw(v),
            status: crate::http::StatusCode::Http200Ok,
            content_type: file.content_type,
        },
    }
}

impl<H> Server<H> {
    /// A server with no address, no public directory, no workers and no
    /// routes.
    pub fn new() -> (r: Self)
        ensures
            r.address@.len() == 0,
            r.public is None,
            r.max_connections == 0,
            r.routes.wf(),
            r.routes.paths().len() == 0,
    {
        Server { address: String::new(), public: None, max_connections: 0, routes: Routes::new() }
    }

    pub fn address(self, address: &str) -> (r: Self)
        ensures
            r.address@ == address@,
            r.public == self.public,
            r.max_connections == self.max_connections,
            r.routes == self.routes,
    {
        Server { address: String::from_str(address), ..self }
    }

    /// Serves the files under `path` for requests that no route takes.
    pub fn public(self, path: &str) -> (r: Self)
        ensures
            r.public matches Some(p) && p@ == path@,
            r.address == self.address,
            r.max_connections == self.max_connections,
            r.routes == self.routes,
    {
        Server { public: Some(String::from_str(path)), ..self }
    }

    /// Sets the number of workers.
    pub fn max_connections(self, num: usize) -> (r: Self)
        ensures
            r.max_connections == num,
            r.address == self.address,
            r.public == self.public,
            r.routes == self.routes,
    {
        Server { max_connections: num, ..self }
    }

    pub fn routes(self, routes: Routes<H>) -> (r: Self)
        ensures
            r.routes == routes,
            r.address == self.address,
            r.public == self.public,
            r.max_connections == self.max_connections,
    {
        Server { routes, ..self }
    }

    /// Decides where a request for `path` goes. A bound path goes to its
    /// handler whatever the public directory holds; else, with a public
    /// directory, to the file it names there (`index.html` for `/`), with
    /// the media type guessed from the file's name; else nowhere.
    pub fn dispatch(&self, path: &str) -> (r: Action)
        requires
            self.routes.wf(),
        ensures
            dispatched(self.routes.paths(), public_view(self.public), path@, r),
    {
        match self.routes.find(path) {
            Some(i) => Action::Handle(i),
            None => match &self.public {
                Some(root) => {
                    if has_parent_segment(path) {
                        Action::NotFound
                    } else {
                        let file = resolve(root.as_str(), path);
                        let content_type = ContentType::guess(file.as_str());
                        Action::Serve(StaticFile { path: file, content_type })
                    }
                },
                None => Action::NotFound,
            },
        }
    }
}

} // verus!
