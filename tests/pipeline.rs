use sufficient::config::Config;
use sufficient::error::{log_error_chain, Error, IoKind};
use sufficient::listing::{directory_link, directory_title, render_listing, Entry};
use sufficient::mime::{content_type_for, extension_of, ContentType};
use sufficient::response::{answer, node_lookup, reason_text, reject, respond, Lookup, Method, Node, Payload, Response};
use sufficient::uri::{percent_decode, resolve, resolve_path, same_bytes, within_root};

fn segs(parts: &[&str]) -> Vec<Vec<u8>> {
    parts.iter().map(|p| p.as_bytes().to_vec()).collect()
}

fn text_of(r: &Response) -> Option<&'static str> {
    match r.body {
        Payload::Text(t) => Some(t),
        _ => None,
    }
}

#[test]
fn resolves_plain_path() {
    assert_eq!(resolve("/img/logo.png"), Ok(segs(&["img", "logo.png"])));
}

#[test]
fn resolves_root_to_no_segments() {
    assert_eq!(resolve("/"), Ok(Vec::new()));
}

#[test]
fn drops_empty_and_dot_segments() {
    assert_eq!(resolve("//a/./b//"), Ok(segs(&["a", "b"])));
}

#[test]
fn query_is_not_part_of_the_path() {
    assert_eq!(resolve("/a/b.txt?x=1"), Ok(segs(&["a", "b.txt"])));
}

#[test]
fn absolute_form_uses_its_path() {
    assert_eq!(resolve("http://example.com/x/y"), Ok(segs(&["x", "y"])));
}

#[test]
fn dot_dot_is_outside_root() {
    assert_eq!(resolve("/../etc/passwd"), Err(Error::UriOutsideRoot));
    assert_eq!(resolve("/a/b/.."), Err(Error::UriOutsideRoot));
}

#[test]
fn encoded_dot_dot_is_outside_root() {
    assert_eq!(resolve("/%2e%2e/etc/passwd"), Err(Error::UriOutsideRoot));
    assert_eq!(resolve("/a/%2E./b"), Err(Error::UriOutsideRoot));
}

#[test]
fn encoded_slash_splits_segments() {
    assert_eq!(resolve("/a%2F..%2Fb"), Err(Error::UriOutsideRoot));
    assert_eq!(resolve("/a%2fb"), Ok(segs(&["a", "b"])));
}

#[test]
fn dots_inside_names_are_kept() {
    assert_eq!(resolve("/a..b/..."), Ok(segs(&["a..b", "..."])));
}

#[test]
fn invalid_utf8_is_rejected() {
    assert_eq!(resolve("/%ff"), Err(Error::UriNotUtf8));
    assert_eq!(resolve_path(b"/%c3"), Err(Error::UriNotUtf8));
}

#[test]
fn utf8_is_decoded() {
    assert_eq!(resolve("/caf%C3%A9"), Ok(vec!["café".as_bytes().to_vec()]));
}

#[test]
fn not_absolute_is_rejected() {
    assert_eq!(resolve("*"), Err(Error::UriNotAbsolute));
    assert_eq!(resolve("example.com:80"), Err(Error::UriNotAbsolute));
    assert_eq!(resolve("a b"), Err(Error::UriNotAbsolute));
    assert_eq!(resolve_path(b""), Err(Error::UriNotAbsolute));
    assert_eq!(resolve_path(b"a/b"), Err(Error::UriNotAbsolute));
}

#[test]
fn percent_decoding() {
    assert_eq!(percent_decode(b"%41%62c"), b"Abc".to_vec());
    assert_eq!(percent_decode(b"%zz%4%"), b"%zz%4%".to_vec());
    assert_eq!(percent_decode(b"%2f%2F"), b"//".to_vec());
    assert_eq!(percent_decode(b""), Vec::<u8>::new());
}

#[test]
fn containment() {
    let root = segs(&["srv", "www"]);
    assert!(within_root(&root, &segs(&["srv", "www"])));
    assert!(within_root(&root, &segs(&["srv", "www", "img", "logo.png"])));
    assert!(!within_root(&root, &segs(&["srv"])));
    assert!(!within_root(&root, &segs(&["srv", "www2", "x"])));
    assert!(!within_root(&root, &segs(&["etc", "passwd"])));
    assert!(same_bytes(&b"ab".to_vec(), &b"ab".to_vec()));
    assert!(!same_bytes(&b"ab".to_vec(), &b"abc".to_vec()));
}

#[test]
fn content_types() {
    assert_eq!(content_type_for(b"index.html"), ContentType::Html);
    assert_eq!(content_type_for(b"logo.PNG"), ContentType::Png);
    assert_eq!(content_type_for(b"a.tar.gz"), ContentType::OctetStream);
    assert_eq!(content_type_for(b"README"), ContentType::OctetStream);
    assert_eq!(content_type_for(b"photo.jpeg"), ContentType::Jpeg);
    assert_eq!(content_type_for(b"app.js"), ContentType::Javascript);
    assert_eq!(ContentType::Png.as_str(), "image/png");
    assert_eq!(ContentType::OctetStream.as_str(), "application/octet-stream");
    assert_eq!(ContentType::Html.as_str(), "text/html");
}

#[test]
fn extensions() {
    assert_eq!(extension_of(b"x.Tar.GZ"), Some(b"gz".to_vec()));
    assert_eq!(extension_of(b"noext"), None);
    assert_eq!(extension_of(b"trailing."), Some(Vec::new()));
}

#[test]
fn error_statuses() {
    assert_eq!(Error::UriNotAbsolute.status(), 400);
    assert_eq!(Error::UriNotUtf8.status(), 400);
    assert_eq!(Error::UriOutsideRoot.status(), 400);
    assert_eq!(Error::Io(IoKind::NotFound).status(), 404);
    assert_eq!(Error::Io(IoKind::PermissionDenied).status(), 403);
    assert_eq!(Error::Io(IoKind::Other).status(), 500);
    assert_eq!(Error::Hyper.status(), 500);
    assert!(Error::UriNotUtf8.is_client_error());
    assert!(!Error::Http.is_client_error());
    assert_eq!(Error::UriNotUtf8.message(), "requested URI is not UTF-8");
    assert_eq!(Error::AddrParse.message(), "failed to parse IP address");
}

#[test]
fn error_chain_lines() {
    let chain = vec!["I/O error".to_string(), "permission denied".to_string(), "os error 13".to_string()];
    assert_eq!(
        log_error_chain(&chain),
        vec![
            "error: I/O error".to_string(),
            "caused by: permission denied".to_string(),
            "caused by: os error 13".to_string()
        ]
    );
    assert!(log_error_chain(&Vec::new()).is_empty());
}

#[test]
fn file_response_get() {
    let r = respond(Method::Get, &segs(&["img", "logo.png"]), &Lookup::File(2048));
    assert_eq!(r.status, 200);
    assert_eq!(r.content_type, ContentType::Png);
    assert_eq!(r.content_length, 2048);
    assert!(matches!(r.body, Payload::File));
}

#[test]
fn head_matches_get_without_body() {
    let s = segs(&["docs", "a.txt"]);
    let g = respond(Method::Get, &s, &Lookup::File(5));
    let h = respond(Method::Head, &s, &Lookup::File(5));
    assert_eq!((g.status, g.content_type, g.content_length), (h.status, h.content_type, h.content_length));
    assert!(matches!(h.body, Payload::Empty));
    let lookup = Lookup::Directory { index: None, entries: vec![Entry { name: b"x".to_vec(), is_dir: false }] };
    let g = respond(Method::Get, &s, &lookup);
    let h = respond(Method::Head, &s, &lookup);
    assert_eq!((g.status, g.content_type, g.content_length), (h.status, h.content_type, h.content_length));
    assert!(matches!(h.body, Payload::Empty));
}

#[test]
fn index_stands_for_directory() {
    let dir = respond(Method::Get, &Vec::new(), &Lookup::Directory { index: Some(12), entries: Vec::new() });
    let file = respond(Method::Get, &segs(&["index.html"]), &Lookup::File(12));
    assert_eq!((dir.status, dir.content_type, dir.content_length), (file.status, file.content_type, file.content_length));
    assert_eq!(dir.content_type, ContentType::Html);
    assert!(matches!(dir.body, Payload::File));
}

#[test]
fn listing_links_each_entry() {
    let entries = vec![
        Entry { name: b"a b.txt".to_vec(), is_dir: false },
        Entry { name: b"sub".to_vec(), is_dir: true },
        Entry { name: b"<x>".to_vec(), is_dir: false },
    ];
    let page = render_listing(&segs(&["docs"]), &entries);
    let expected = "<!DOCTYPE html>\n<html>\n<head><meta charset=\"utf-8\"><title>Index of /docs/</title></head>\n<body>\n<h1>Index of /docs/</h1>\n<ul>\n\
<li><a href=\"/docs/a%20b.txt\">a b.txt</a></li>\n\
<li><a href=\"/docs/sub/\">sub/</a></li>\n\
<li><a href=\"/docs/%3Cx%3E\">&lt;x&gt;</a></li>\n\
</ul>\n</body>\n</html>\n";
    assert_eq!(String::from_utf8(page.clone()).unwrap(), expected);
    let r = respond(Method::Get, &segs(&["docs"]), &Lookup::Directory { index: None, entries });
    assert_eq!(r.status, 200);
    assert_eq!(r.content_type, ContentType::Html);
    assert_eq!(r.content_length, page.len() as u64);
    match r.body {
        Payload::Html(b) => assert_eq!(b, page),
        _ => panic!("listing has no page"),
    }
}

#[test]
fn links_and_titles() {
    assert_eq!(directory_link(&Vec::new()), b"/".to_vec());
    assert_eq!(directory_link(&segs(&["a&b", "c"])), b"/a%26b/c/".to_vec());
    assert_eq!(directory_title(&segs(&["a&b", "c"])), b"/a&amp;b/c/".to_vec());
}

#[test]
fn missing_is_not_found() {
    let r = respond(Method::Get, &segs(&["missing.txt"]), &Lookup::Failed(IoKind::NotFound));
    assert_eq!(r.status, 404);
    assert_eq!(text_of(&r), Some("Not Found"));
    assert_eq!(r.content_length, 9);
}

#[test]
fn forbidden_shows_nothing() {
    let r = respond(Method::Get, &segs(&["secret"]), &Lookup::Failed(IoKind::PermissionDenied));
    assert_eq!(r.status, 403);
    assert_eq!(text_of(&r), Some("Forbidden"));
    let r = respond(Method::Get, &segs(&["x"]), &Lookup::Failed(IoKind::Other));
    assert_eq!(r.status, 500);
    assert_eq!(text_of(&r), Some("Internal Server Error"));
}

#[test]
fn rejections() {
    let r = reject(Method::Get, Error::UriOutsideRoot);
    assert_eq!(r.status, 400);
    assert_eq!(r.content_type, ContentType::Plain);
    assert_eq!(text_of(&r), Some("Bad Request"));
    let r = reject(Method::Head, Error::UriNotUtf8);
    assert_eq!(r.status, 400);
    assert_eq!(r.content_length, 11);
    assert!(matches!(r.body, Payload::Empty));
}

#[test]
fn other_methods_are_answered_like_get() {
    let r = respond(Method::Other, &segs(&["a.txt"]), &Lookup::File(3));
    assert_eq!((r.status, r.content_type, r.content_length), (200, ContentType::Plain, 3));
    assert!(matches!(r.body, Payload::File));
    let r = respond(Method::Other, &segs(&["missing"]), &Lookup::Failed(IoKind::NotFound));
    assert_eq!(r.status, 404);
    let r = respond(Method::Other, &segs(&["secret"]), &Lookup::Failed(IoKind::PermissionDenied));
    assert_eq!(r.status, 403);
    assert_eq!(reject(Method::Other, Error::UriOutsideRoot).status, 400);
    let r = respond(Method::Other, &Vec::new(), &Lookup::Directory { index: Some(12), entries: Vec::new() });
    assert_eq!((r.status, r.content_type, r.content_length), (200, ContentType::Html, 12));
    assert_eq!(reason_text(404), "Not Found");
}

#[test]
fn escape_after_canonicalising_is_bad_request() {
    let r = answer(Method::Get, &segs(&["link"]), false, &Lookup::File(10));
    assert_eq!(r.status, 400);
    assert_eq!(text_of(&r), Some("Bad Request"));
    let r = answer(Method::Get, &segs(&["a.txt"]), true, &Lookup::File(10));
    assert_eq!((r.status, r.content_length), (200, 10));
}

#[test]
fn node_lookups() {
    assert!(matches!(node_lookup(Node::File(7), Node::Special, Vec::new()), Lookup::File(7)));
    assert!(matches!(node_lookup(Node::Special, Node::Special, Vec::new()), Lookup::Failed(IoKind::NotFound)));
    assert!(matches!(
        node_lookup(Node::Directory, Node::File(12), Vec::new()),
        Lookup::Directory { index: Some(12), .. }
    ));
    let entries = vec![Entry { name: b"index.html".to_vec(), is_dir: true }];
    match node_lookup(Node::Directory, Node::Directory, entries) {
        Lookup::Directory { index: None, entries } => assert_eq!(entries.len(), 1),
        _ => panic!("a directory named index.html is no index"),
    }
}

#[test]
fn serving_a_small_site() {
    // root holds index.html (12 bytes) and img/logo.png
    let root = respond(Method::Get, &resolve("/").unwrap(), &Lookup::Directory { index: Some(12), entries: Vec::new() });
    assert_eq!((root.status, root.content_type, root.content_length), (200, ContentType::Html, 12));
    assert!(matches!(root.body, Payload::File));
    let logo = respond(Method::Get, &resolve("/img/logo.png").unwrap(), &Lookup::File(4321));
    assert_eq!((logo.status, logo.content_type, logo.content_length), (200, ContentType::Png, 4321));
    let bad = resolve("/../etc/passwd").unwrap_err();
    assert_eq!(reject(Method::Get, bad).status, 400);
    let missing = respond(Method::Get, &resolve("/missing.txt").unwrap(), &Lookup::Failed(IoKind::NotFound));
    assert_eq!(missing.status, 404);
}

#[test]
fn config_holds_its_values() {
    let c = Config::new("127.0.0.1:4000".to_string(), b".".to_vec());
    assert_eq!(c.addr, "127.0.0.1:4000");
    assert_eq!(c.root_dir, b".".to_vec());
}
