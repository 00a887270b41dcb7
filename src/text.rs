//! Character and byte helpers shared by the decoder and the encoder.
use vstd::prelude::*;
use vstd::std_specs::iter::IteratorSpec;
use vstd::string::StringSliceAdditionalSpecFns;

verus! {

broadcast use vstd::utf8::encode_utf8_decode_utf8;

/// Compares two string slices character for character.
pub fn str_eq(a: &str, b: &str) -> (r: bool)
    ensures
        r == (a@ == b@),
{
    let x = a.as_bytes();
    let y = b.as_bytes();
    if x.len() != y.len() {
        proof {
            if a@ == b@ {
                assert(x@ == y@);
            }
        }
        return false;
    }
    let mut i: usize = 0;
    while i < x.len()
        invariant
            x@ == a.spec_bytes(),
            y@ == b.spec_bytes(),
            x@.len() == y@.len(),
            i <= x@.len(),
            x@.subrange(0, i as int) == y@.subrange(0, i as int),
        decreases x@.len() - i,
    {
        if x[i] != y[i] {
            proof {
                if a@ == b@ {
                    assert(x@ == y@);
                }
            }
            return false;
        }
        assert(x@.subrange(0, i + 1) == x@.subrange(0, i as int).push(x@[i as int]));
        assert(y@.subrange(0, i + 1) == y@.subrange(0, i as int).push(y@[i as int]));
        i = i + 1;
    }
    assert(x@ == x@.subrange(0, x@.len() as int));
    assert(y@ == y@.subrange(0, y@.len() as int));
    proof {
        vstd::utf8::encode_utf8_decode_utf8(a@);
        vstd::utf8::encode_utf8_decode_utf8(b@);
    }
    true
}

/// Collects the characters of a string slice into a vector.
pub fn chars_of(s: &str) -> (r: Vec<char>)
    ensures
        r@ == s@,
{
    broadcast use vstd::string::axiom_spec_iter, vstd::string::next_postcondition;

    let mut it = s.chars();
    let mut r: Vec<char> = Vec::new();
    loop
        invariant
            r@ + it.remaining() == s@,
            it.decrease() is Some,
        decreases it.decrease()->0,
    {
        match it.next() {
            Some(c) => {
                r.push(c);
            },
            None => {
                assert(r@ + it.remaining() == r@);
                return r;
            },
        }
    }
}

/// Unicode white space, the set that `char::is_whitespace` accepts.
pub open spec fn is_space(c: char) -> bool {
    let u = c as u32;
    ||| 9 <= u <= 13
    ||| u == 32
    ||| u == 0x85
    ||| u == 0xa0
    ||| u == 0x1680
    ||| 0x2000 <= u <= 0x200a
    ||| u == 0x2028
    ||| u == 0x2029
    ||| u == 0x202f
    ||| u == 0x205f
    ||| u == 0x3000
}

pub fn space(c: char) -> (r: bool)
    ensures
        r == is_space(c),
{
    let u = c as u32;
    (9 <= u && u <= 13) || u == 32 || u == 0x85 || u == 0xa0 || u == 0x1680 || (0x2000 <= u && u
        <= 0x200a) || u == 0x2028 || u == 0x2029 || u == 0x202f || u == 0x205f || u == 0x3000
}

/// First position at or after `i` that does not hold white space.
pub open spec fn skip_space(t: Seq<char>, i: int) -> int
    decreases t.len() - i,
{
    if i >= t.len() {
        t.len() as int
    } else if is_space(t[i]) {
        skip_space(t, i + 1)
    } else {
        i
    }
}

/// First position at or after `i` that holds white space, or the end.
pub open spec fn word_end(t: Seq<char>, i: int) -> int
    decreases t.len() - i,
{
    if i >= t.len() {
        t.len() as int
    } else if is_space(t[i]) {
        i
    } else {
        word_end(t, i + 1)
    }
}

/// The `n`-th white-space separated word of `t` from position `i` on, or
/// the empty sequence when there are fewer words.
pub open spec fn word(t: Seq<char>, n: nat, i: int) -> Seq<char>
    decreases n,
{
    let s = skip_space(t, i);
    let e = word_end(t, s);
    if n == 0 {
        t.subrange(s, e)
    } else {
        word(t, (n - 1) as nat, e)
    }
}

/// Bounds of the next word at or after `i`.
pub fn next_word(t: &Vec<char>, i: usize) -> (r: (usize, usize))
    requires
        i <= t@.len(),
    ensures
        r.0 == skip_space(t@, i as int),
        r.1 == word_end(t@, r.0 as int),
        i <= r.0 <= r.1 <= t@.len(),
{
    let mut s = i;
    while s < t.len() && space(t[s])
        invariant
            i <= s <= t@.len(),
            skip_space(t@, i as int) == skip_space(t@, s as int),
        decreases t@.len() - s,
    {
        s = s + 1;
    }
    let mut e = s;
    while e < t.len() && !space(t[e])
        invariant
            s <= e <= t@.len(),
            word_end(t@, s as int) == word_end(t@, e as int),
        decreases t@.len() - e,
    {
        e = e + 1;
    }
    (s, e)
}

/// First position at or after `i` that holds `c`, or -1.
pub open spec fn index_from(t: Seq<char>, c: char, i: int) -> int
    decreases t.len() - i,
{
    if i >= t.len() {
        -1
    } else if t[i] == c {
        i
    } else {
        index_from(t, c, i + 1)
    }
}

pub proof fn lemma_index_from_bounds(t: Seq<char>, c: char, i: int)
    requires
        0 <= i,
    ensures
        index_from(t, c, i) == -1 || (i <= index_from(t, c, i) < t.len() && t[index_from(
            t,
            c,
            i,
        )] == c),
        forall|k: int| i <= k < t.len() && index_from(t, c, i) == -1 ==> t[k] != c,
        forall|k: int| i <= k < index_from(t, c, i) ==> t[k] != c,
    decreases t.len() - i,
{
    if i < t.len() && t[i] != c {
        lemma_index_from_bounds(t, c, i + 1);
    }
}

/// First position at or after `i` that holds `c`, if any.
pub fn find_char(t: &Vec<char>, c: char, i: usize) -> (r: Option<usize>)
    ensures
        match r {
            Some(k) => k == index_from(t@, c, i as int),
            None => index_from(t@, c, i as int) == -1,
        },
{
    let mut k = i;
    while k < t.len()
        invariant
            i <= k,
            index_from(t@, c, i as int) == index_from(t@, c, k as int),
        decreases t@.len() - k,
    {
        if t[k] == c {
            return Some(k);
        }
        k = k + 1;
    }
    None
}

/// The pieces of `t` between occurrences of `c`, scanning from `i` with the
/// current piece starting at `start`.
pub open spec fn pieces(t: Seq<char>, c: char, start: int, i: int) -> Seq<Seq<char>>
    decreases t.len() - i,
{
    if i >= t.len() {
        seq![t.subrange(start, t.len() as int)]
    } else if t[i] == c {
        seq![t.subrange(start, i)] + pieces(t, c, i + 1, i + 1)
    } else {
        pieces(t, c, start, i + 1)
    }
}

/// `t` split at every `c`; a `t` without `c` gives one piece, itself.
pub open spec fn split_on(t: Seq<char>, c: char) -> Seq<Seq<char>> {
    pieces(t, c, 0, 0)
}

/// First position at or after `i` where `p` occurs in `t`, or -1.
pub open spec fn find_from(t: Seq<char>, p: Seq<char>, i: int) -> int
    decreases t.len() + 1 - i,
{
    if i + p.len() > t.len() {
        -1
    } else if t.subrange(i, i + p.len()) == p {
        i
    } else {
        find_from(t, p, i + 1)
    }
}

pub proof fn lemma_find_from_bounds(t: Seq<char>, p: Seq<char>, i: int)
    requires
        0 <= i,
    ensures
        find_from(t, p, i) == -1 || (i <= find_from(t, p, i) && find_from(t, p, i) + p.len()
            <= t.len()),
    decreases t.len() + 1 - i,
{
    if i + p.len() <= t.len() && t.subrange(i, i + p.len()) != p {
        lemma_find_from_bounds(t, p, i + 1);
    }
}

/// Whether `p` occurs in `t` at position `i`.
fn occurs_at(t: &Vec<char>, p: &Vec<char>, i: usize) -> (r: bool)
    requires
        i + p@.len() <= t@.len(),
    ensures
        r == (t@.subrange(i as int, i + p@.len()) == p@),
{
    let n = t.len();
    let mut j: usize = 0;
    while j < p.len()
        invariant
            n == t@.len(),
            i + p@.len() <= n,
            j <= p@.len(),
            forall|k: int| 0 <= k < j ==> t@[i + k] == p@[k],
        decreases p@.len() - j,
    {
        if t[i + j] != p[j] {
            assert(t@.subrange(i as int, i + p@.len())[j as int] != p@[j as int]);
            return false;
        }
        j = j + 1;
    }
    assert(t@.subrange(i as int, i + p@.len()) == p@);
    true
}

/// First position at or after `i` where `p` occurs in `t`, if any.
pub fn find_seq(t: &Vec<char>, p: &Vec<char>, i: usize) -> (r: Option<usize>)
    ensures
        match r {
            Some(k) => k == find_from(t@, p@, i as int),
            None => find_from(t@, p@, i as int) == -1,
        },
{
    if p.len() == 0 {
        if i <= t.len() {
            assert(t@.subrange(i as int, i as int) == p@);
            return Some(i);
        }
        return None;
    }
    let mut k = i;
    while k < t.len() && p.len() <= t.len() - k
        invariant
            i <= k,
            p@.len() > 0,
            find_from(t@, p@, i as int) == find_from(t@, p@, k as int),
        decreases t@.len() + 1 - k,
    {
        if occurs_at(t, p, k) {
            return Some(k);
        }
        k = k + 1;
    }
    None
}

/// The value of a run of decimal digits.
pub open spec fn digits_value(s: Seq<char>) -> nat
    decreases s.len(),
{
    if s.len() == 0 {
        0
    } else {
        digits_value(s.drop_last()) * 10 + ((s.last() as u32) - ('0' as u32)) as nat
    }
}

pub open spec fn is_digit(c: char) -> bool {
    '0' <= c <= '9'
}

pub open spec fn all_digits(d: Seq<char>) -> bool {
    forall|k: int| 0 <= k < d.len() ==> is_digit(#[trigger] d[k])
}

/// `s` without one leading `+`.
pub open spec fn unsigned_part(s: Seq<char>) -> Seq<char> {
    if s.len() > 0 && s[0] == '+' {
        s.drop_first()
    } else {
        s
    }
}

/// What `str::parse::<usize>` gives for `s`: an optional `+` and then at
/// least one decimal digit, of a value that fits in `usize`.
pub open spec fn parse_size(s: Seq<char>) -> Option<nat> {
    let d = unsigned_part(s);
    if d.len() > 0 && all_digits(d) && digits_value(d) <= usize::MAX {
        Some(digits_value(d))
    } else {
        None
    }
}

proof fn lemma_digits_grow(s: Seq<char>, i: int, j: int)
    requires
        0 <= i <= j <= s.len(),
    ensures
        digits_value(s.subrange(0, i)) <= digits_value(s.subrange(0, j)),
    decreases j - i,
{
    if i < j {
        lemma_digits_grow(s, i, j - 1);
        assert(s.subrange(0, j).drop_last() == s.subrange(0, j - 1));
    }
}

/// Parses `t[from..to]` as `str::parse::<usize>` does.
pub fn parse_size_at(t: &Vec<char>, from: usize, to: usize) -> (r: Option<usize>)
    requires
        from <= to <= t@.len(),
    ensures
        match r {
            Some(n) => parse_size(t@.subrange(from as int, to as int)) == Some(n as nat),
            None => parse_size(t@.subrange(from as int, to as int)) is None,
        },
{
    let ghost s = t@.subrange(from as int, to as int);
    let mut a = from;
    if a < to && t[a] == '+' {
        a = a + 1;
    }
    let ghost d = t@.subrange(a as int, to as int);
    assert(d == unsigned_part(s));
    if a == to {
        return None;
    }
    let mut acc: usize = 0;
    let mut i = a;
    while i < to
        invariant
            from <= a <= i <= to <= t@.len(),
            d == t@.subrange(a as int, to as int),
            s == t@.subrange(from as int, to as int),
            d == unsigned_part(s),
            d.len() > 0,
            acc == digits_value(d.subrange(0, i - a)),
            forall|k: int| 0 <= k < i - a ==> is_digit(#[trigger] d[k]),
        decreases to - i,
    {
        let c = t[i];
        if !('0' <= c && c <= '9') {
            assert(!is_digit(d[i - a]));
            assert(!all_digits(d));
            return None;
        }
        let dig = (c as u32 - '0' as u32) as usize;
        assert(d.subrange(0, i + 1 - a).drop_last() == d.subrange(0, i - a));
        if acc > (usize::MAX - dig) / 10 {
            proof {
                assert(acc * 10 + dig > usize::MAX) by (nonlinear_arith)
                    requires
                        acc > (usize::MAX - dig) / 10,
                        dig <= 9,
                ;
                lemma_digits_grow(d, i + 1 - a, d.len() as int);
                assert(d.subrange(0, d.len() as int) == d);
                assert(digits_value(d.subrange(0, i + 1 - a)) == acc * 10 + dig);
                assert(digits_value(d) > usize::MAX);
                assert(parse_size(s) is None);
            }
            return None;
        }
        proof {
            assert(acc * 10 + dig <= usize::MAX) by (nonlinear_arith)
                requires
                    acc <= (usize::MAX - dig) / 10,
                    dig <= 9,
            ;
        }
        acc = acc * 10 + dig;
        i = i + 1;
    }
    assert(d.subrange(0, d.len() as int) == d);
    Some(acc)
}

} // verus!
