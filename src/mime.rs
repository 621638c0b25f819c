use vstd::prelude::*;

use crate::uri::{DOT, same_bytes};

verus! {

/// The media types this server names; everything else is sent as
/// `application/octet-stream`.
#[derive(Clone, Copy, Debug, PartialEq, Eq, Structural)]
pub enum ContentType {
    Html,
    Css,
    Javascript,
    Json,
    Plain,
    Xml,
    Png,
    Jpeg,
    Gif,
    Svg,
    Icon,
    Pdf,
    Wasm,
    OctetStream,
}

/// ASCII upper case folded to lower case; other bytes unchanged.
pub open spec fn lower(b: u8) -> u8 {
    if 65 <= b <= 90 {
        (b + 32) as u8
    } else {
        b
    }
}

/// The bytes after the last `.` of `name`, folded to lower case, or `None`
/// where `name` holds no `.`.
pub open spec fn extension(name: Seq<u8>) -> Option<Seq<u8>>
    decreases name.len(),
{
    if name.len() == 0 {
        None
    } else if name.last() == DOT {
        Some(Seq::empty())
    } else {
        match extension(name.drop_last()) {
            None => None,
            Some(e) => Some(e.push(lower(name.last()))),
        }
    }
}

/// The media type named by a (lower-case) extension.
pub open spec fn type_of_extension(e: Seq<u8>) -> ContentType {
    if e == seq![104u8, 116, 109, 108] || e == seq![104u8, 116, 109] {
        ContentType::Html
    } else if e == seq![99u8, 115, 115] {
        ContentType::Css
    } else if e == seq![106u8, 115] {
        ContentType::Javascript
    } else if e == seq![106u8, 115, 111, 110] {
        ContentType::Json
    } else if e == seq![116u8, 120, 116] {
        ContentType::Plain
    } else if e == seq![120u8, 109, 108] {
        ContentType::Xml
    } else if e == seq![112u8, 110, 103] {
        ContentType::Png
    } else if e == seq![106u8, 112, 103] || e == seq![106u8, 112, 101, 103] {
        ContentType::Jpeg
    } else if e == seq![103u8, 105, 102] {
        ContentType::Gif
    } else if e == seq![115u8, 118, 103] {
        ContentType::Svg
    } else if e == seq![105u8, 99, 111] {
        ContentType::Icon
    } else if e == seq![112u8, 100, 102] {
        ContentType::Pdf
    } else if e == seq![119u8, 97, 115, 109] {
        ContentType::Wasm
    } else {
        ContentType::OctetStream
    }
}

/// The media type of a file called `name`.
pub open spec fn type_of_name(name: Seq<u8>) -> ContentType {
    match extension(name) {
        None => ContentType::OctetStream,
        Some(e) => type_of_extension(e),
    }
}

/// The header text of each media type.
pub open spec fn type_text(t: ContentType) -> Seq<char> {
    match t {
        ContentType::Html => "text/html"@,
        ContentType::Css => "text/css"@,
        ContentType::Javascript => "application/javascript"@,
        ContentType::Json => "application/json"@,
        ContentType::Plain => "text/plain"@,
        ContentType::Xml => "text/xml"@,
        ContentType::Png => "image/png"@,
        ContentType::Jpeg => "image/jpeg"@,
        ContentType::Gif => "image/gif"@,
        ContentType::Svg => "image/svg+xml"@,
        ContentType::Icon => "image/x-icon"@,
        ContentType::Pdf => "application/pdf"@,
        ContentType::Wasm => "application/wasm"@,
        ContentType::OctetStream => "application/octet-stream"@,
    }
}

impl ContentType {
    /// The value of a `Content-Type` header for this type.
    pub fn as_str(&self) -> (r: &'static str)
        ensures
            r@ == type_text(*self),
    {
        match self {
            ContentType::Html => "text/html",
            ContentType::Css => "text/css",
            ContentType::Javascript => "application/javascript",
            ContentType::Json => "application/json",
            ContentType::Plain => "text/plain",
            ContentType::Xml => "text/xml",
            ContentType::Png => "image/png",
            ContentType::Jpeg => "image/jpeg",
            ContentType::Gif => "image/gif",
            ContentType::Svg => "image/svg+xml",
            ContentType::Icon => "image/x-icon",
            ContentType::Pdf => "application/pdf",
            ContentType::Wasm => "application/wasm",
            ContentType::OctetStream => "application/octet-stream",
        }
    }
}

/// The extension of `name` as `extension` reads it.
pub fn extension_of(name: &[u8]) -> (r: Option<Vec<u8>>)
    ensures
        match r {
            None => extension(name@) is None,
            Some(e) => extension(name@) == Some(e@),
        },
{
    let mut ext: Option<Vec<u8>> = None;
    let mut i: usize = 0;
    proof {
        assert(name@.take(0) =~= Seq::<u8>::empty());
    }
    while i < name.len()
        invariant
            i <= name.len(),
            match ext {
                None => extension(name@.take(i as int)) is None,
                Some(e) => extension(name@.take(i as int)) == Some(e@),
            },
        decreases name.len() - i,
    {
        proof {
            assert(name@.take(i + 1).drop_last() =~= name@.take(i as int));
        }
        let c = name[i];
        if c == DOT {
            ext = Some(Vec::new());
            proof {
                assert(extension(name@.take(i + 1)) == Some(Seq::<u8>::empty()));
            }
        } else {
            let folded: u8 = if 65 <= c && c <= 90 { c + 32 } else { c };
            match ext {
                None => {},
                Some(mut e) => {
                    e.push(folded);
                    ext = Some(e);
                },
            }
        }
        i = i + 1;
    }
    proof {
        assert(name@.take(i as int) =~= name@);
    }
    ext
}

/// The media type of a file called `name`, from its extension.
pub fn content_type_for(name: &[u8]) -> (r: ContentType)
    ensures
        r == type_of_name(name@),
{
    match extension_of(name) {
        None => ContentType::OctetStream,
        Some(e) => {
            if same_bytes(&e, &vec![104u8, 116, 109, 108]) || same_bytes(&e, &vec![104u8, 116, 109]) {
                ContentType::Html
            } else if same_bytes(&e, &vec![99u8, 115, 115]) {
                ContentType::Css
            } else if same_bytes(&e, &vec![106u8, 115]) {
                ContentType::Javascript
            } else if same_bytes(&e, &vec![106u8, 115, 111, 110]) {
                ContentType::Json
            } else if same_bytes(&e, &vec![116u8, 120, 116]) {
                ContentType::Plain
            } else if same_bytes(&e, &vec![120u8, 109, 108]) {
                ContentType::Xml
            } else if same_bytes(&e, &vec![112u8, 110, 103]) {
                ContentType::Png
            } else if same_bytes(&e, &vec![106u8, 112, 103]) || same_bytes(&e, &vec![106u8, 112, 101, 103]) {
                ContentType::Jpeg
            } else if same_bytes(&e, &vec![103u8, 105, 102]) {
                ContentType::Gif
            } else if same_bytes(&e, &vec![115u8, 118, 103]) {
                ContentType::Svg
            } else if same_bytes(&e, &vec![105u8, 99, 111]) {
                ContentType::Icon
            } else if same_bytes(&e, &vec![112u8, 100, 102]) {
                ContentType::Pdf
            } else if same_bytes(&e, &vec![119u8, 97, 115, 109]) {
                ContentType::Wasm
            } else {
                ContentType::OctetStream
            }
        },
    }
}

} // verus!
