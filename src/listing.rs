use vstd::prelude::*;
use vstd::string::StringSliceAdditionalSpecFns;

use crate::uri::SLASH;

verus! {

/// One entry of a directory: its file name and whether it is a directory.
#[derive(Debug)]
pub struct Entry {
    pub name: Vec<u8>,
    pub is_dir: bool,
}

impl View for Entry {
    type V = (Seq<u8>, bool);

    open spec fn view(&self) -> (Seq<u8>, bool) {
        (self.name@, self.is_dir)
    }
}

/// The entries' views, in order.
pub open spec fn entry_views(v: Seq<Entry>) -> Seq<(Seq<u8>, bool)> {
    v.map_values(|e: Entry| e@)
}

/// Bytes that stand for themselves in a link: letters, digits, `-._~`.
pub open spec fn is_unreserved(b: u8) -> bool {
    (48 <= b <= 57) || (65 <= b <= 90) || (97 <= b <= 122) || b == 45 || b == 46 || b == 95
        || b == 126
}

/// The upper-case hex digit of a value below 16.
pub open spec fn hex_upper(n: u8) -> u8 {
    if n < 10 {
        (48 + n) as u8
    } else {
        (55 + n) as u8
    }
}

/// How one byte is written in a link.
pub open spec fn encoded_byte(b: u8) -> Seq<u8> {
    if is_unreserved(b) {
        seq![b]
    } else {
        seq![37u8, hex_upper(b / 16), hex_upper(b % 16)]
    }
}

/// `s` percent-encoded for use in a link.
pub open spec fn encoded(s: Seq<u8>) -> Seq<u8>
    decreases s.len(),
{
    if s.len() == 0 {
        Seq::empty()
    } else {
        encoded(s.drop_last()) + encoded_byte(s.last())
    }
}

/// How one byte is written in HTML text.
pub open spec fn escaped_byte(b: u8) -> Seq<u8> {
    if b == 38 {
        "&amp;".spec_bytes()
    } else if b == 60 {
        "&lt;".spec_bytes()
    } else if b == 62 {
        "&gt;".spec_bytes()
    } else if b == 34 {
        "&quot;".spec_bytes()
    } else if b == 39 {
        "&#39;".spec_bytes()
    } else {
        seq![b]
    }
}

/// `s` escaped for use in HTML text.
pub open spec fn escaped(s: Seq<u8>) -> Seq<u8>
    decreases s.len(),
{
    if s.len() == 0 {
        Seq::empty()
    } else {
        escaped(s.drop_last()) + escaped_byte(s.last())
    }
}

/// The link to the directory whose path is `segs`: each segment encoded, a
/// slash before each and one at the end.
pub open spec fn link_base(segs: Seq<Seq<u8>>) -> Seq<u8>
    decreases segs.len(),
{
    if segs.len() == 0 {
        seq![SLASH]
    } else {
        link_base(segs.drop_last()) + encoded(segs.last()) + seq![SLASH]
    }
}

/// The path of the directory `segs` as shown in the page.
pub open spec fn shown_path(segs: Seq<Seq<u8>>) -> Seq<u8>
    decreases segs.len(),
{
    if segs.len() == 0 {
        seq![SLASH]
    } else {
        shown_path(segs.drop_last()) + escaped(segs.last()) + seq![SLASH]
    }
}

/// A slash after the name of a directory.
pub open spec fn dir_mark(is_dir: bool) -> Seq<u8> {
    if is_dir {
        seq![SLASH]
    } else {
        Seq::empty()
    }
}

/// The list item that links to one entry.
pub open spec fn entry_line(base: Seq<u8>, e: (Seq<u8>, bool)) -> Seq<u8> {
    "<li><a href=\"".spec_bytes() + base + encoded(e.0) + dir_mark(e.1) + "\">".spec_bytes()
        + escaped(e.0) + dir_mark(e.1) + "</a></li>\n".spec_bytes()
}

/// One list item per entry, in order.
pub open spec fn entry_lines(base: Seq<u8>, es: Seq<(Seq<u8>, bool)>) -> Seq<u8>
    decreases es.len(),
{
    if es.len() == 0 {
        Seq::empty()
    } else {
        entry_lines(base, es.drop_last()) + entry_line(base, es.last())
    }
}

/// The HTML page that lists the entries `es` of the directory `segs`.
pub open spec fn listing_page(segs: Seq<Seq<u8>>, es: Seq<(Seq<u8>, bool)>) -> Seq<u8> {
    "<!DOCTYPE html>\n<html>\n<head><meta charset=\"utf-8\"><title>Index of ".spec_bytes()
        + shown_path(segs) + "</title></head>\n<body>\n<h1>Index of ".spec_bytes()
        + shown_path(segs) + "</h1>\n<ul>\n".spec_bytes() + entry_lines(link_base(segs), es)
        + "</ul>\n</body>\n</html>\n".spec_bytes()
}

fn push_bytes(out: &mut Vec<u8>, s: &[u8])
    ensures
        final(out)@ == old(out)@ + s@,
{
    let ghost start = out@;
    let mut i: usize = 0;
    while i < s.len()
        invariant
            i <= s@.len(),
            out@ == start + s@.take(i as int),
        decreases s.len() - i,
    {
        out.push(s[i]);
        i = i + 1;
        assert(out@ =~= start + s@.take(i as int));
    }
    assert(s@.take(i as int) =~= s@);
}

fn push_str(out: &mut Vec<u8>, s: &str)
    ensures
        final(out)@ == old(out)@ + s.spec_bytes(),
{
    push_bytes(out, s.as_bytes());
}

fn hex_digit_upper(n: u8) -> (r: u8)
    requires
        n < 16,
    ensures
        r == hex_upper(n),
{
    if n < 10 {
        48 + n
    } else {
        55 + n
    }
}

fn push_encoded(out: &mut Vec<u8>, s: &[u8])
    ensures
        final(out)@ == old(out)@ + encoded(s@),
{
    let ghost start = out@;
    let mut i: usize = 0;
    proof {
        assert(s@.take(0) =~= Seq::<u8>::empty());
        assert(out@ =~= start + encoded(s@.take(0)));
    }
    while i < s.len()
        invariant
            i <= s@.len(),
            out@ == start + encoded(s@.take(i as int)),
        decreases s.len() - i,
    {
        let b = s[i];
        proof {
            assert(s@.take(i + 1).drop_last() =~= s@.take(i as int));
        }
        let ghost before = out@;
        if (48 <= b && b <= 57) || (65 <= b && b <= 90) || (97 <= b && b <= 122) || b == 45 || b
            == 46 || b == 95 || b == 126 {
            out.push(b);
        } else {
            out.push(37);
            out.push(hex_digit_upper(b / 16));
            out.push(hex_digit_upper(b % 16));
        }
        assert(out@ =~= before + encoded_byte(b));
        i = i + 1;
        assert(out@ =~= start + encoded(s@.take(i as int)));
    }
    assert(s@.take(i as int) =~= s@);
}

fn push_escaped(out: &mut Vec<u8>, s: &[u8])
    ensures
        final(out)@ == old(out)@ + escaped(s@),
{
    let ghost start = out@;
    let mut i: usize = 0;
    proof {
        assert(s@.take(0) =~= Seq::<u8>::empty());
        assert(out@ =~= start + escaped(s@.take(0)));
    }
    while i < s.len()
        invariant
            i <= s@.len(),
            out@ == start + escaped(s@.take(i as int)),
        decreases s.len() - i,
    {
        let b = s[i];
        proof {
            assert(s@.take(i + 1).drop_last() =~= s@.take(i as int));
        }
        let ghost before = out@;
        if b == 38 {
            push_str(out, "&amp;");
        } else if b == 60 {
            push_str(out, "&lt;");
        } else if b == 62 {
            push_str(out, "&gt;");
        } else if b == 34 {
            push_str(out, "&quot;");
        } else if b == 39 {
            push_str(out, "&#39;");
        } else {
            out.push(b);
            assert(out@ =~= before + seq![b]);
        }
        i = i + 1;
        assert(out@ =~= start + escaped(s@.take(i as int)));
    }
    assert(s@.take(i as int) =~= s@);
}

/// The link to the directory whose path is `segs`.
pub fn directory_link(segs: &Vec<Vec<u8>>) -> (r: Vec<u8>)
    ensures
        r@ == link_base(segs@.map_values(|g: Vec<u8>| g@)),
{
    let ghost gs = segs@.map_values(|g: Vec<u8>| g@);
    let mut out: Vec<u8> = Vec::new();
    out.push(SLASH);
    let mut i: usize = 0;
    proof {
        assert(gs.take(0) =~= Seq::<Seq<u8>>::empty());
        assert(out@ =~= seq![SLASH]);
    }
    while i < segs.len()
        invariant
            i <= segs@.len(),
            gs == segs@.map_values(|g: Vec<u8>| g@),
            out@ == link_base(gs.take(i as int)),
        decreases segs.len() - i,
    {
        proof {
            assert(gs.take(i + 1).drop_last() =~= gs.take(i as int));
        }
        push_encoded(&mut out, segs[i].as_slice());
        out.push(SLASH);
        i = i + 1;
    }
    assert(gs.take(i as int) =~= gs);
    out
}

/// The path of the directory `segs` as the page shows it.
pub fn directory_title(segs: &Vec<Vec<u8>>) -> (r: Vec<u8>)
    ensures
        r@ == shown_path(segs@.map_values(|g: Vec<u8>| g@)),
{
    let ghost gs = segs@.map_values(|g: Vec<u8>| g@);
    let mut out: Vec<u8> = Vec::new();
    out.push(SLASH);
    let mut i: usize = 0;
    proof {
        assert(gs.take(0) =~= Seq::<Seq<u8>>::empty());
        assert(out@ =~= seq![SLASH]);
    }
    while i < segs.len()
        invariant
            i <= segs@.len(),
            gs == segs@.map_values(|g: Vec<u8>| g@),
            out@ == shown_path(gs.take(i as int)),
        decreases segs.len() - i,
    {
        proof {
            assert(gs.take(i + 1).drop_last() =~= gs.take(i as int));
        }
        push_escaped(&mut out, segs[i].as_slice());
        out.push(SLASH);
        i = i + 1;
    }
    assert(gs.take(i as int) =~= gs);
    out
}

/// The HTML page that lists `entries`, the contents of the directory whose
/// path is `segs`; each entry links to itself, a directory with a trailing
/// slash.
pub fn render_listing(segs: &Vec<Vec<u8>>, entries: &Vec<Entry>) -> (r: Vec<u8>)
    ensures
        r@ == listing_page(segs@.map_values(|g: Vec<u8>| g@), entry_views(entries@)),
{
    let ghost gs = segs@.map_values(|g: Vec<u8>| g@);
    let ghost es = entry_views(entries@);
    let base = directory_link(segs);
    let title = directory_title(segs);
    let mut out: Vec<u8> = Vec::new();
    push_str(&mut out, "<!DOCTYPE html>\n<html>\n<head><meta charset=\"utf-8\"><title>Index of ");
    push_bytes(&mut out, title.as_slice());
    push_str(&mut out, "</title></head>\n<body>\n<h1>Index of ");
    push_bytes(&mut out, title.as_slice());
    push_str(&mut out, "</h1>\n<ul>\n");
    let ghost head = out@;
    let mut i: usize = 0;
    proof {
        assert(es.take(0) =~= Seq::<(Seq<u8>, bool)>::empty());
        assert(out@ =~= head + entry_lines(base@, es.take(0)));
    }
    while i < entries.len()
        invariant
            i <= entries@.len(),
            es == entry_views(entries@),
            out@ == head + entry_lines(base@, es.take(i as int)),
        decreases entries.len() - i,
    {
        proof {
            assert(es.take(i + 1).drop_last() =~= es.take(i as int));
        }
        let ghost before = out@;
        let e = &entries[i];
        push_str(&mut out, "<li><a href=\"");
        push_bytes(&mut out, base.as_slice());
        push_encoded(&mut out, e.name.as_slice());
        if e.is_dir {
            out.push(SLASH);
        }
        assert(out@ =~= before + "<li><a href=\"".spec_bytes() + base@ + encoded(e.name@) + dir_mark(e.is_dir));
        let ghost mid = out@;
        push_str(&mut out, "\">");
        push_escaped(&mut out, e.name.as_slice());
        if e.is_dir {
            out.push(SLASH);
        }
        assert(out@ =~= mid + "\">".spec_bytes() + escaped(e.name@) + dir_mark(e.is_dir));
        push_str(&mut out, "</a></li>\n");
        assert(out@ =~= before + entry_line(base@, es[i as int]));
        i = i + 1;
        assert(out@ =~= head + entry_lines(base@, es.take(i as int)));
    }
    assert(es.take(i as int) =~= es);
    push_str(&mut out, "</ul>\n</body>\n</html>\n");
    assert(out@ =~= listing_page(gs, es));
    out
}

} // verus!
