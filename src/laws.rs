use vstd::prelude::*;
use vstd::string::StringSliceAdditionalSpecFns;

use crate::error::{Error, IoKind, status_of};
use crate::mime::ContentType;
use crate::response::{
    LookupView, Method, PayloadView, answer_to, failure_response, index_name, response_to, reason,
};
use crate::listing::{entry_line, entry_lines, listing_page};
use crate::uri::{
    SLASH, dot_dot, is_named, named, parsed_uri_path, percent_decoded, resolution, segments,
    split_state, uri_resolution,
};

verus! {

proof fn lemma_split_has_no_slash(s: Seq<u8>)
    ensures
        forall|i: int| 0 <= i < split_state(s).0.len() ==> !(#[trigger] split_state(s).0[i]).contains(SLASH),
        !split_state(s).1.contains(SLASH),
    decreases s.len(),
{
    if s.len() > 0 {
        lemma_split_has_no_slash(s.drop_last());
        let (done, open) = split_state(s.drop_last());
        if s.last() != SLASH {
            assert forall|k: int| 0 <= k < open.push(s.last()).len() implies open.push(s.last())[k] != SLASH by {
                if k < open.len() {
                    assert(!open.contains(SLASH));
                    assert(open[k] != SLASH);
                }
            }
        } else {
            assert forall|i: int| 0 <= i < done.push(open).len() implies !(#[trigger] done.push(open)[i]).contains(SLASH) by {
                if i < done.len() {
                    assert(!done[i].contains(SLASH));
                }
            }
        }
    }
}

proof fn lemma_named_from(gs: Seq<Seq<u8>>)
    ensures
        forall|i: int| 0 <= i < named(gs).len() ==> is_named(#[trigger] named(gs)[i]) && gs.contains(named(gs)[i]),
    decreases gs.len(),
{
    if gs.len() > 0 {
        lemma_named_from(gs.drop_last());
        let sub = named(gs.drop_last());
        assert forall|i: int| 0 <= i < named(gs).len() implies is_named(#[trigger] named(gs)[i]) && gs.contains(named(gs)[i]) by {
            if i < sub.len() {
                assert(named(gs)[i] == sub[i]);
                let k = choose|k: int| 0 <= k < gs.drop_last().len() && gs.drop_last()[k] == sub[i];
                assert(gs[k] == sub[i]);
            } else {
                assert(named(gs)[i] == gs.last());
                assert(gs[gs.len() - 1] == gs.last());
            }
        }
    }
}

/// A resolved path only descends from the root: each of its segments names
/// something, holds no slash, and is neither `.` nor `..`.
pub proof fn lemma_resolved_stays_below_root(path: Seq<u8>)
    ensures
        resolution(path) is Ok ==> forall|i: int| 0 <= i < resolution(path)->Ok_0.len() ==> {
            let g = #[trigger] resolution(path)->Ok_0[i];
            is_named(g) && g != dot_dot() && !g.contains(SLASH)
        },
{
    let d = percent_decoded(path);
    if resolution(path) is Ok {
        let gs = segments(d);
        lemma_named_from(gs);
        lemma_split_has_no_slash(d);
        assert forall|i: int| 0 <= i < named(gs).len() implies {
            let g = #[trigger] named(gs)[i];
            is_named(g) && g != dot_dot() && !g.contains(SLASH)
        } by {
            let g = named(gs)[i];
            let k = choose|k: int| 0 <= k < gs.len() && gs[k] == g;
            if k < split_state(d).0.len() {
                assert(gs[k] == split_state(d).0[k]);
            }
            assert(!gs.contains(dot_dot()));
        }
    }
}

/// A request whose path holds a `..` segment is refused with 400, before
/// any filesystem lookup, whether or not it is otherwise well formed.
pub proof fn lemma_dot_dot_is_bad_request(m: Method, uri: Seq<char>, path: Seq<u8>)
    requires
        parsed_uri_path(uri) == Some(path),
        segments(percent_decoded(path)).contains(dot_dot()),
    ensures
        uri_resolution(uri) is Err,
        failure_response(m, uri_resolution(uri)->Err_0).status == 400,
{
}

/// A file that resolves is sent whole: status 200, its exact length, and
/// its bytes as the body.
pub proof fn lemma_file_is_sent_whole(segs: Seq<Seq<u8>>, len: u64)
    ensures
        response_to(Method::Get, segs, LookupView::File(len)).status == 200,
        response_to(Method::Get, segs, LookupView::File(len)).content_length == len,
        response_to(Method::Get, segs, LookupView::File(len)).body == PayloadView::File,
{
}

/// A directory with an `index.html` is answered as that file would be.
pub proof fn lemma_index_stands_for_directory(
    m: Method,
    segs: Seq<Seq<u8>>,
    len: u64,
    entries: Seq<(Seq<u8>, bool)>,
)
    ensures
        response_to(m, segs, LookupView::Directory { index: Some(len), entries })
            == response_to(m, segs.push(index_name()), LookupView::File(len)),
{
}

/// A directory without an index is answered with the HTML page that links
/// to each of its immediate entries.
pub proof fn lemma_listing_of_directory(segs: Seq<Seq<u8>>, entries: Seq<(Seq<u8>, bool)>)
    ensures
        response_to(Method::Get, segs, LookupView::Directory { index: None, entries }).status
            == 200,
        response_to(Method::Get, segs, LookupView::Directory { index: None, entries }).content_type
            == ContentType::Html,
        response_to(Method::Get, segs, LookupView::Directory { index: None, entries }).body
            == PayloadView::Bytes(listing_page(segs, entries)),
{
}

/// A failed lookup is answered by its kind alone: 404 for a missing path,
/// 403 for a forbidden one, 500 otherwise; nothing of the path shows.
pub proof fn lemma_failure_shows_nothing(
    m: Method,
    a: Seq<Seq<u8>>,
    b: Seq<Seq<u8>>,
    k: IoKind,
)
    ensures
        response_to(m, a, LookupView::Failed(k)) == response_to(m, b, LookupView::Failed(k)),
        response_to(m, a, LookupView::Failed(k)).status == status_of(Error::Io(k)),
        k == IoKind::NotFound ==> response_to(m, a, LookupView::Failed(k)).status == 404,
        k == IoKind::PermissionDenied ==> response_to(m, a, LookupView::Failed(k)).status == 403,
        response_to(m, a, LookupView::Failed(k)).body == PayloadView::Empty
            || response_to(m, a, LookupView::Failed(k)).body == PayloadView::Bytes(
            reason(status_of(Error::Io(k))).spec_bytes(),
        ),
{
}

/// `HEAD` is answered with the headers `GET` would get, and no body.
pub proof fn lemma_head_matches_get(segs: Seq<Seq<u8>>, lookup: LookupView)
    ensures
        response_to(Method::Head, segs, lookup).status == response_to(Method::Get, segs, lookup).status,
        response_to(Method::Head, segs, lookup).content_type == response_to(
            Method::Get,
            segs,
            lookup,
        ).content_type,
        response_to(Method::Head, segs, lookup).content_length == response_to(
            Method::Get,
            segs,
            lookup,
        ).content_length,
        response_to(Method::Head, segs, lookup).body == PayloadView::Empty,
{
}

/// The list in a directory page holds one link line per entry, in the
/// entries' order, and nothing else.
pub proof fn lemma_one_line_per_entry(base: Seq<u8>, es: Seq<(Seq<u8>, bool)>)
    ensures
        entry_lines(base, es) == es.map_values(|e: (Seq<u8>, bool)| entry_line(base, e)).flatten(),
    decreases es.len(),
{
    let f = |e: (Seq<u8>, bool)| entry_line(base, e);
    if es.len() == 0 {
        assert(es.map_values(f) =~= Seq::<Seq<u8>>::empty());
    } else {
        lemma_one_line_per_entry(base, es.drop_last());
        assert(es.map_values(f) =~= es.drop_last().map_values(f).push(f(es.last())));
        es.drop_last().map_values(f).lemma_flatten_push(f(es.last()));
    }
}

/// Every answer carries one of the statuses 200, 400, 403, 404 and 500, and
/// a path whose canonical form leaves the root is refused with 400.
pub proof fn lemma_known_statuses(m: Method, segs: Seq<Seq<u8>>, contained: bool, lookup: LookupView)
    ensures
        ({
            let s = answer_to(m, segs, contained, lookup).status;
            s == 200 || s == 400 || s == 403 || s == 404 || s == 500
        }),
        !contained ==> answer_to(m, segs, contained, lookup).status == 400,
{
}

/// Every refusal carries one of the statuses 400, 403, 404 and 500.
pub proof fn lemma_known_failure_statuses(m: Method, e: Error)
    ensures
        ({
            let s = failure_response(m, e).status;
            s == 400 || s == 403 || s == 404 || s == 500
        }),
{
}

} // verus!
