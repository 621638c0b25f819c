use vstd::prelude::*;
use vstd::utf8::valid_utf8;

use crate::error::Error;

verus! {

/// The byte `/`.
pub const SLASH: u8 = 47;

/// The byte `.`.
pub const DOT: u8 = 46;

/// The byte `%`.
pub const PERCENT: u8 = 37;

/// What the URI parser reads as the path of `uri`, or `None` where it does
/// not accept `uri` as a URI reference.
pub uninterp spec fn parsed_uri_path(uri: Seq<char>) -> Option<Seq<u8>>;

pub open spec fn is_hex_digit(b: u8) -> bool {
    (48 <= b <= 57) || (65 <= b <= 70) || (97 <= b <= 102)
}

pub open spec fn hex_value(b: u8) -> u8
    recommends
        is_hex_digit(b),
{
    if b <= 57 {
        (b - 48) as u8
    } else if b <= 70 {
        (b - 55) as u8
    } else {
        (b - 87) as u8
    }
}

/// Percent-decoding: each `%` followed by two hex digits stands for the byte
/// they spell; every other byte, a lone `%` included, stands for itself.
pub open spec fn percent_decoded(s: Seq<u8>) -> Seq<u8>
    decreases s.len(),
{
    if s.len() == 0 {
        Seq::empty()
    } else if s.len() >= 3 && s[0] == PERCENT && is_hex_digit(s[1]) && is_hex_digit(s[2]) {
        seq![(hex_value(s[1]) * 16 + hex_value(s[2])) as u8] + percent_decoded(s.subrange(3, s.len() as int))
    } else {
        seq![s[0]] + percent_decoded(s.subrange(1, s.len() as int))
    }
}

/// Splitting `s` on `/`, read up to its end: the finished segments and the
/// segment still open.
pub open spec fn split_state(s: Seq<u8>) -> (Seq<Seq<u8>>, Seq<u8>)
    decreases s.len(),
{
    if s.len() == 0 {
        (Seq::empty(), Seq::empty())
    } else {
        let (done, open) = split_state(s.drop_last());
        if s.last() == SLASH {
            (done.push(open), Seq::empty())
        } else {
            (done, open.push(s.last()))
        }
    }
}

/// The pieces of `s` between slashes, empty ones included.
pub open spec fn segments(s: Seq<u8>) -> Seq<Seq<u8>> {
    split_state(s).0.push(split_state(s).1)
}

pub open spec fn dot_dot() -> Seq<u8> {
    seq![DOT, DOT]
}

/// A segment that names something: not empty and not `.`.
pub open spec fn is_named(g: Seq<u8>) -> bool {
    g.len() > 0 && g != seq![DOT]
}

/// The segments of `gs` that name something, in order.
pub open spec fn named(gs: Seq<Seq<u8>>) -> Seq<Seq<u8>>
    decreases gs.len(),
{
    if gs.len() == 0 {
        Seq::empty()
    } else if is_named(gs.last()) {
        named(gs.drop_last()).push(gs.last())
    } else {
        named(gs.drop_last())
    }
}

/// The views of a sequence of byte vectors.
pub open spec fn views(v: Seq<Vec<u8>>) -> Seq<Seq<u8>> {
    v.map_values(|x: Vec<u8>| x@)
}

/// How a request path resolves: rejected, or the segments to join onto the
/// root, in order.
pub open spec fn resolution(path: Seq<u8>) -> Result<Seq<Seq<u8>>, Error> {
    if path.len() == 0 || path[0] != SLASH {
        Err(Error::UriNotAbsolute)
    } else if !valid_utf8(percent_decoded(path)) {
        Err(Error::UriNotUtf8)
    } else if segments(percent_decoded(path)).contains(dot_dot()) {
        Err(Error::UriOutsideRoot)
    } else {
        Ok(named(segments(percent_decoded(path))))
    }
}

/// How a raw request target resolves.
pub open spec fn uri_resolution(uri: Seq<char>) -> Result<Seq<Seq<u8>>, Error> {
    match parsed_uri_path(uri) {
        None => Err(Error::UriNotAbsolute),
        Some(p) => resolution(p),
    }
}

/// Whether `prefix` is a prefix of `s`.
pub open spec fn is_prefix_of(prefix: Seq<Seq<u8>>, s: Seq<Seq<u8>>) -> bool {
    prefix.len() <= s.len() && s.subrange(0, prefix.len() as int) == prefix
}

/// Relies on `http::Uri`'s `FromStr` and `Uri::path`: the path component
/// that the parser reads, a function of the text alone.
#[verifier::external_body]
fn uri_path(uri: &str) -> (r: Option<Vec<u8>>)
    ensures
        match r {
            Some(p) => parsed_uri_path(uri@) == Some(p@),
            None => parsed_uri_path(uri@) is None,
        },
{
    uri.parse::<http::Uri>().ok().map(|u| u.path().as_bytes().to_vec())
}

/// Relies on `std::str::from_utf8`: it accepts exactly the well-formed UTF-8.
#[verifier::external_body]
fn is_utf8(b: &[u8]) -> (r: bool)
    ensures
        r == valid_utf8(b@),
{
    std::str::from_utf8(b).is_ok()
}

fn hex_digit(b: u8) -> (r: Option<u8>)
    ensures
        r == (if is_hex_digit(b) { Some(hex_value(b)) } else { None::<u8> }),
{
    if 48 <= b && b <= 57 {
        Some(b - 48)
    } else if 65 <= b && b <= 70 {
        Some(b - 55)
    } else if 97 <= b && b <= 102 {
        Some(b - 87)
    } else {
        None
    }
}

/// Percent-decodes `s`.
pub fn percent_decode(s: &[u8]) -> (r: Vec<u8>)
    ensures
        r@ == percent_decoded(s@),
{
    let mut out: Vec<u8> = Vec::new();
    let mut i: usize = 0;
    proof {
        assert(s@.subrange(0, s@.len() as int) =~= s@);
        assert(out@ + percent_decoded(s@) =~= percent_decoded(s@));
    }
    while i < s.len()
        invariant
            i <= s.len(),
            percent_decoded(s@) == out@ + percent_decoded(s@.subrange(i as int, s@.len() as int)),
        decreases s.len() - i,
    {
        let ghost rest = s@.subrange(i as int, s@.len() as int);
        let mut step: usize = 1;
        let mut byte: u8 = s[i];
        if s[i] == PERCENT && s.len() - i > 2 {
            match (hex_digit(s[i + 1]), hex_digit(s[i + 2])) {
                (Some(hi), Some(lo)) => {
                    byte = hi * 16 + lo;
                    step = 3;
                },
                _ => {},
            }
        }
        proof {
            assert(rest.subrange(step as int, rest.len() as int) =~= s@.subrange(
                i + step,
                s@.len() as int,
            ));
        }
        out.push(byte);
        i = i + step;
        proof {
            assert(percent_decoded(s@) == out@ + percent_decoded(s@.subrange(i as int, s@.len() as int)));
        }
    }
    proof {
        assert(s@.subrange(i as int, s@.len() as int) =~= Seq::<u8>::empty());
    }
    out
}

fn is_dot_dot(g: &Vec<u8>) -> (r: bool)
    ensures
        r == (g@ == dot_dot()),
{
    if g.len() == 2 && g[0] == DOT && g[1] == DOT {
        assert(g@ =~= dot_dot());
        true
    } else {
        false
    }
}

fn names_something(g: &Vec<u8>) -> (r: bool)
    ensures
        r == is_named(g@),
{
    if g.len() == 1 && g[0] == DOT {
        assert(g@ =~= seq![DOT]);
        false
    } else {
        g.len() > 0
    }
}

/// Closes the open segment `g`: records whether it is `..`, and keeps it
/// where it names something.
fn close_segment(kept: &mut Vec<Vec<u8>>, saw_dot_dot: &mut bool, g: Vec<u8>)
    ensures
        views(final(kept)@) == (if is_named(g@) {
            views(old(kept)@).push(g@)
        } else {
            views(old(kept)@)
        }),
        *final(saw_dot_dot) == (*old(saw_dot_dot) || g@ == dot_dot()),
{
    if is_dot_dot(&g) {
        *saw_dot_dot = true;
    }
    if names_something(&g) {
        let ghost before = kept@;
        let ghost gv = g@;
        kept.push(g);
        assert(views(kept@) =~= views(before).push(gv));
    }
}

proof fn lemma_push_segment(done: Seq<Seq<u8>>, g: Seq<u8>)
    ensures
        named(done.push(g)) == (if is_named(g) {
            named(done).push(g)
        } else {
            named(done)
        }),
        done.push(g).contains(dot_dot()) == (done.contains(dot_dot()) || g == dot_dot()),
{
    assert(done.push(g).drop_last() =~= done);
    if done.push(g).contains(dot_dot()) {
        let k = choose|k: int| 0 <= k < done.push(g).len() && done.push(g)[k] == dot_dot();
        if k < done.len() {
            assert(done[k] == dot_dot());
        }
    }
    if done.contains(dot_dot()) {
        let k = choose|k: int| 0 <= k < done.len() && done[k] == dot_dot();
        assert(done.push(g)[k] == dot_dot());
    }
    if g == dot_dot() {
        assert(done.push(g)[done.len() as int] == dot_dot());
    }
}

/// Resolves a request path: it must be absolute, decode to UTF-8, and hold no
/// `..` segment; the result is its segments that name something, in order.
pub fn resolve_path(path: &[u8]) -> (r: Result<Vec<Vec<u8>>, Error>)
    ensures
        match r {
            Ok(v) => resolution(path@) == Ok::<Seq<Seq<u8>>, Error>(views(v@)),
            Err(e) => resolution(path@) == Err::<Seq<Seq<u8>>, Error>(e),
        },
{
    if path.len() == 0 || path[0] != SLASH {
        return Err(Error::UriNotAbsolute);
    }
    let d = percent_decode(path);
    if !is_utf8(d.as_slice()) {
        return Err(Error::UriNotUtf8);
    }
    let mut kept: Vec<Vec<u8>> = Vec::new();
    let mut saw_dot_dot = false;
    let mut open: Vec<u8> = Vec::new();
    let mut i: usize = 0;
    proof {
        assert(d@.take(0) =~= Seq::<u8>::empty());
        assert(views(kept@) =~= Seq::<Seq<u8>>::empty());
        assert(open@ =~= Seq::<u8>::empty());
    }
    while i < d.len()
        invariant
            i <= d.len(),
            views(kept@) == named(split_state(d@.take(i as int)).0),
            saw_dot_dot == split_state(d@.take(i as int)).0.contains(dot_dot()),
            open@ == split_state(d@.take(i as int)).1,
        decreases d.len() - i,
    {
        let ghost done = split_state(d@.take(i as int)).0;
        proof {
            assert(d@.take(i + 1).drop_last() =~= d@.take(i as int));
            lemma_push_segment(done, open@);
        }
        let c = d[i];
        if c == SLASH {
            let g = open;
            open = Vec::new();
            close_segment(&mut kept, &mut saw_dot_dot, g);
            assert(open@ =~= Seq::<u8>::empty());
        } else {
            open.push(c);
        }
        i = i + 1;
    }
    proof {
        assert(d@.take(i as int) =~= d@);
        lemma_push_segment(split_state(d@).0, open@);
    }
    close_segment(&mut kept, &mut saw_dot_dot, open);
    if saw_dot_dot {
        Err(Error::UriOutsideRoot)
    } else {
        Ok(kept)
    }
}

/// Resolves a raw request target: it must parse as a URI reference, and its
/// path then resolves as `resolve_path` says.
pub fn resolve(uri: &str) -> (r: Result<Vec<Vec<u8>>, Error>)
    ensures
        match r {
            Ok(v) => uri_resolution(uri@) == Ok::<Seq<Seq<u8>>, Error>(views(v@)),
            Err(e) => uri_resolution(uri@) == Err::<Seq<Seq<u8>>, Error>(e),
        },
{
    match uri_path(uri) {
        None => Err(Error::UriNotAbsolute),
        Some(p) => resolve_path(p.as_slice()),
    }
}

/// Whether the path components `path` lie at or below `root`.
pub fn within_root(root: &Vec<Vec<u8>>, path: &Vec<Vec<u8>>) -> (r: bool)
    ensures
        r == is_prefix_of(views(root@), views(path@)),
{
    if root.len() > path.len() {
        return false;
    }
    let mut i: usize = 0;
    while i < root.len()
        invariant
            i <= root.len() <= path.len(),
            forall|k: int| 0 <= k < i ==> root@[k]@ == path@[k]@,
        decreases root.len() - i,
    {
        if !same_bytes(&root[i], &path[i]) {
            assert(views(path@).subrange(0, root@.len() as int)[i as int] != views(root@)[i as int]);
            return false;
        }
        i = i + 1;
    }
    assert(views(path@).subrange(0, root@.len() as int) =~= views(root@));
    true
}

/// Whether `a` and `b` hold the same bytes.
pub fn same_bytes(a: &Vec<u8>, b: &Vec<u8>) -> (r: bool)
    ensures
        r == (a@ == b@),
{
    if a.len() != b.len() {
        return false;
    }
    let mut i: usize = 0;
    while i < a.len()
        invariant
            i <= a.len() == b.len(),
            forall|k: int| 0 <= k < i ==> a@[k] == b@[k],
        decreases a.len() - i,
    {
        if a[i] != b[i] {
            return false;
        }
        i = i + 1;
    }
    assert(a@ =~= b@);
    true
}

} // verus!
