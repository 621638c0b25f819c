use vstd::prelude::*;
use vstd::string::StringSliceAdditionalSpecFns;

use crate::error::{Error, IoKind, status_of};
use crate::listing::{Entry, entry_views, listing_page, render_listing};
use crate::mime::{ContentType, content_type_for, type_of_name};
use crate::uri::views;

verus! {

/// The request methods this server tells apart: only `HEAD` changes the
/// response, which then carries no body.
#[derive(Clone, Copy, Debug, PartialEq, Eq, Structural)]
pub enum Method {
    Get,
    Head,
    Other,
}

/// What the filesystem said about the path a request resolved to.
#[derive(Debug)]
pub enum Lookup {
    /// A regular file of this many bytes.
    File(u64),
    /// A directory: the size of its `index.html`, where it has one, and its
    /// immediate entries.
    Directory { index: Option<u64>, entries: Vec<Entry> },
    /// The lookup failed.
    Failed(IoKind),
}

/// A lookup as plain values.
pub enum LookupView {
    File(u64),
    Directory { index: Option<u64>, entries: Seq<(Seq<u8>, bool)> },
    Failed(IoKind),
}

impl View for Lookup {
    type V = LookupView;

    open spec fn view(&self) -> LookupView {
        match self {
            Lookup::File(n) => LookupView::File(*n),
            Lookup::Directory { index, entries } => LookupView::Directory {
                index: *index,
                entries: entry_views(entries@),
            },
            Lookup::Failed(k) => LookupView::Failed(*k),
        }
    }
}

/// The body of a response.
#[derive(Debug)]
pub enum Payload {
    /// No body.
    Empty,
    /// The bytes of the file the request resolved to (for a directory, of its
    /// `index.html`), sent as they are read.
    File,
    /// A short fixed text.
    Text(&'static str),
    /// A generated page.
    Html(Vec<u8>),
}

/// A body as plain values.
pub enum PayloadView {
    Empty,
    File,
    Bytes(Seq<u8>),
}

impl View for Payload {
    type V = PayloadView;

    open spec fn view(&self) -> PayloadView {
        match self {
            Payload::Empty => PayloadView::Empty,
            Payload::File => PayloadView::File,
            Payload::Text(t) => PayloadView::Bytes(t.spec_bytes()),
            Payload::Html(b) => PayloadView::Bytes(b@),
        }
    }
}

/// A response: status, the `Content-Type` and `Content-Length` headers (in
/// that order), and the body.
#[derive(Debug)]
pub struct Response {
    pub status: u16,
    pub content_type: ContentType,
    pub content_length: u64,
    pub body: Payload,
}

/// A response as plain values.
pub struct ResponseView {
    pub status: u16,
    pub content_type: ContentType,
    pub content_length: u64,
    pub body: PayloadView,
}

impl View for Response {
    type V = ResponseView;

    open spec fn view(&self) -> ResponseView {
        ResponseView {
            status: self.status,
            content_type: self.content_type,
            content_length: self.content_length,
            body: self.body@,
        }
    }
}

/// The name of the file that stands for a directory.
pub open spec fn index_name() -> Seq<u8> {
    seq![105u8, 110, 100, 101, 120, 46, 104, 116, 109, 108]
}

/// The name of the last segment of a path; empty for the root.
pub open spec fn last_name(segs: Seq<Seq<u8>>) -> Seq<u8> {
    if segs.len() == 0 {
        Seq::empty()
    } else {
        segs.last()
    }
}

/// The short text sent with a status.
pub open spec fn reason(status: u16) -> &'static str {
    if status == 400 {
        "Bad Request"
    } else if status == 403 {
        "Forbidden"
    } else if status == 404 {
        "Not Found"
    } else {
        "Internal Server Error"
    }
}

/// The body as sent: nothing for `HEAD`, the whole body for any other method.
pub open spec fn sent(m: Method, b: PayloadView) -> PayloadView {
    if m == Method::Head {
        PayloadView::Empty
    } else {
        b
    }
}

/// The response that carries a fixed text with `status`.
pub open spec fn text_response(m: Method, status: u16) -> ResponseView {
    ResponseView {
        status,
        content_type: ContentType::Plain,
        content_length: reason(status).spec_bytes().len() as usize as u64,
        body: sent(m, PayloadView::Bytes(reason(status).spec_bytes())),
    }
}

/// The response to a request whose resolution failed with `e`.
pub open spec fn failure_response(m: Method, e: Error) -> ResponseView {
    text_response(m, status_of(e))
}

/// The response that sends a file of `len` bytes called `name`.
pub open spec fn file_response(m: Method, name: Seq<u8>, len: u64) -> ResponseView {
    ResponseView {
        status: 200,
        content_type: type_of_name(name),
        content_length: len,
        body: sent(m, PayloadView::File),
    }
}

/// The response to a request for the path `segs`, on which the filesystem
/// said `lookup`.
pub open spec fn response_to(m: Method, segs: Seq<Seq<u8>>, lookup: LookupView) -> ResponseView {
    match lookup {
        LookupView::File(n) => file_response(m, last_name(segs), n),
        LookupView::Directory { index, entries } => match index {
            Some(n) => file_response(m, index_name(), n),
            None => ResponseView {
                status: 200,
                content_type: ContentType::Html,
                content_length: listing_page(segs, entries).len() as u64,
                body: sent(m, PayloadView::Bytes(listing_page(segs, entries))),
            },
        },
        LookupView::Failed(k) => text_response(m, status_of(Error::Io(k))),
    }
}

/// The response to a request for the path `segs` whose canonical form lies
/// below the root exactly when `contained`, and on which the filesystem said
/// `lookup`.
pub open spec fn answer_to(
    m: Method,
    segs: Seq<Seq<u8>>,
    contained: bool,
    lookup: LookupView,
) -> ResponseView {
    if contained {
        response_to(m, segs, lookup)
    } else {
        failure_response(m, Error::UriOutsideRoot)
    }
}

/// The short text sent with `status`.
pub fn reason_text(status: u16) -> (r: &'static str)
    ensures
        r == reason(status),
{
    if status == 400 {
        "Bad Request"
    } else if status == 403 {
        "Forbidden"
    } else if status == 404 {
        "Not Found"
    } else {
        "Internal Server Error"
    }
}

fn text_reply(m: Method, status: u16) -> (r: Response)
    ensures
        r@ == text_response(m, status),
{
    let t = reason_text(status);
    Response {
        status,
        content_type: ContentType::Plain,
        content_length: t.len() as u64,
        body: if m == Method::Head {
            Payload::Empty
        } else {
            Payload::Text(t)
        },
    }
}

fn file_reply(m: Method, name: &[u8], len: u64) -> (r: Response)
    ensures
        r@ == file_response(m, name@, len),
{
    Response {
        status: 200,
        content_type: content_type_for(name),
        content_length: len,
        body: if m == Method::Head {
            Payload::Empty
        } else {
            Payload::File
        },
    }
}

/// The response to a request whose resolution failed with `e`.
pub fn reject(m: Method, e: Error) -> (r: Response)
    ensures
        r@ == failure_response(m, e),
{
    text_reply(m, e.status())
}

/// The response to a request for the path `segs`, on which the filesystem
/// said `lookup`.
pub fn respond(m: Method, segs: &Vec<Vec<u8>>, lookup: &Lookup) -> (r: Response)
    ensures
        r@ == response_to(m, views(segs@), lookup@),
{
    match lookup {
        Lookup::File(n) => {
            if segs.len() == 0 {
                let empty: Vec<u8> = Vec::new();
                file_reply(m, empty.as_slice(), *n)
            } else {
                file_reply(m, segs[segs.len() - 1].as_slice(), *n)
            }
        },
        Lookup::Directory { index, entries } => match index {
            Some(n) => {
                let name: Vec<u8> = vec![105u8, 110, 100, 101, 120, 46, 104, 116, 109, 108];
                file_reply(m, name.as_slice(), *n)
            },
            None => {
                let page = render_listing(segs, entries);
                proof {
                    assert(segs@.map_values(|g: Vec<u8>| g@) == views(segs@));
                }
                Response {
                    status: 200,
                    content_type: ContentType::Html,
                    content_length: page.len() as u64,
                    body: if m == Method::Head {
                        Payload::Empty
                    } else {
                        Payload::Html(page)
                    },
                }
            },
        },
        Lookup::Failed(k) => text_reply(m, Error::Io(*k).status()),
    }
}

/// The response to a request for the path `segs`: refused as outside the
/// root unless its canonical form lies below the root (`contained`), else
/// answered from what the filesystem said.
pub fn answer(m: Method, segs: &Vec<Vec<u8>>, contained: bool, lookup: &Lookup) -> (r: Response)
    ensures
        r@ == answer_to(m, views(segs@), contained, lookup@),
{
    if contained {
        respond(m, segs, lookup)
    } else {
        reject(m, Error::UriOutsideRoot)
    }
}

/// What the filesystem says a path is.
#[derive(Clone, Copy, Debug, PartialEq, Eq, Structural)]
pub enum Node {
    /// A regular file of this many bytes.
    File(u64),
    Directory,
    /// Anything else: a device, a socket, a pipe.
    Special,
}

/// The lookup that a path's node gives: a file is served, a directory is
/// served through its `index.html` where that is a regular file and listed
/// otherwise, and anything else counts as missing.
pub open spec fn lookup_of(node: Node, index: Node, entries: Seq<(Seq<u8>, bool)>) -> LookupView {
    match node {
        Node::File(n) => LookupView::File(n),
        Node::Directory => match index {
            Node::File(n) => LookupView::Directory { index: Some(n), entries },
            _ => LookupView::Directory { index: None, entries },
        },
        Node::Special => LookupView::Failed(IoKind::NotFound),
    }
}

/// The lookup for a path that is `node`; for a directory, `index` is what
/// its `index.html` is and `entries` its immediate entries.
pub fn node_lookup(node: Node, index: Node, entries: Vec<Entry>) -> (r: Lookup)
    ensures
        r@ == lookup_of(node, index, entry_views(entries@)),
{
    match node {
        Node::File(n) => Lookup::File(n),
        Node::Directory => match index {
            Node::File(n) => Lookup::Directory { index: Some(n), entries },
            _ => Lookup::Directory { index: None, entries },
        },
        Node::Special => Lookup::Failed(IoKind::NotFound),
    }
}

} // verus!
