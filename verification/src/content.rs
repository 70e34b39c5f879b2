//! The clipboard payload: plain text or an image with its dimensions.

use vstd::prelude::*;
use vstd::string::StringExecFns;

verus! {

/// What a selection currently holds: UTF-8 text, or image pixel bytes
/// together with the reported width and height.
#[derive(Debug)]
pub enum ClipboardContent {
    Plaintext(String),
    Image { width: usize, height: usize, bytes: Vec<u8> },
}

/// The mathematical shape of a `ClipboardContent` value. Two contents are the
/// same exactly when their views are equal; for an image that includes the
/// reported width and height, not the pixel bytes alone.
pub enum ContentView {
    Plaintext { text: Seq<char> },
    Image { width: nat, height: nat, bytes: Seq<u8> },
}

impl View for ClipboardContent {
    type V = ContentView;

    open spec fn view(&self) -> ContentView {
        match self {
            ClipboardContent::Plaintext(s) => ContentView::Plaintext { text: s@ },
            ClipboardContent::Image { width, height, bytes } => ContentView::Image {
                width: *width as nat,
                height: *height as nat,
                bytes: bytes@,
            },
        }
    }
}

/// Byte size of a content value: the UTF-8 length of the text, or the length
/// of the image payload.
pub open spec fn content_len_spec(v: ContentView) -> nat {
    match v {
        ContentView::Plaintext { text } => vstd::utf8::encode_utf8(text).len(),
        ContentView::Image { bytes, .. } => bytes.len(),
    }
}

/// The content type label under which a content value is announced.
pub open spec fn content_mime_spec(v: ContentView) -> Seq<char> {
    match v {
        ContentView::Plaintext { .. } => "text/plain; charset=utf-8"@,
        ContentView::Image { .. } => "image/png"@,
    }
}

/// The one-line summary `basic_information` renders.
pub open spec fn basic_information_spec(v: ContentView) -> Seq<char> {
    content_mime_spec(v) + ", "@ + human_size_of(content_len_spec(v) as int)
}

/// What `humansize::format_size` renders for a byte count under the binary
/// (IEC) options.
pub uninterp spec fn human_size_of(n: int) -> Seq<char>;

/// Relies on humansize::format_size with the BINARY options: the rendered
/// size is a function of the byte count alone.
#[verifier::external_body]
fn format_size_binary(n: usize) -> (r: String)
    ensures
        r@ == human_size_of(n as int),
{
    humansize::format_size(n, humansize::BINARY)
}

/// How the mime grammar classifies a format string: 0 when it does not parse
/// as a media type, 1 for a text type, 2 for an image type, 3 for any other
/// type.
pub uninterp spec fn mime_class_of(s: Seq<char>) -> int;

/// Relies on mime's `FromStr for Mime` and `Mime::type_`: whether and how a
/// format string parses is a function of the string alone, and the crate's
/// own constants name "text/plain; charset=utf-8" as a text type and
/// "image/png" as an image type.
#[verifier::external_body]
pub(crate) fn mime_class(s: &str) -> (r: u8)
    ensures
        r as int == mime_class_of(s@),
        r <= 3,
        s@ == "text/plain; charset=utf-8"@ ==> r == 1,
        s@ == "image/png"@ ==> r == 2,
{
    match s.parse::<mime::Mime>() {
        Err(_) => 0,
        Ok(m) => {
            if m.type_() == mime::TEXT {
                1
            } else if m.type_() == mime::IMAGE {
                2
            } else {
                3
            }
        },
    }
}

impl ClipboardContent {
    /// Whether the content carries no bytes at all.
    pub fn is_empty(&self) -> (r: bool)
        ensures
            r == (content_len_spec(self@) == 0),
    {
        match self {
            ClipboardContent::Plaintext(s) => {
                proof {
                    lemma_utf8_len_zero(s@);
                }
                s.as_str().is_empty()
            },
            ClipboardContent::Image { bytes, .. } => bytes.len() == 0,
        }
    }

    /// Byte size of the content.
    pub fn len(&self) -> (r: usize)
        ensures
            r as nat == content_len_spec(self@),
    {
        match self {
            ClipboardContent::Plaintext(s) => {
                let b = s.as_str().as_bytes();
                proof {
                    broadcast use vstd::slice::axiom_spec_len;

                }
                b.len()
            },
            ClipboardContent::Image { bytes, .. } => bytes.len(),
        }
    }

    /// Whether the content is text.
    pub fn is_plaintext(&self) -> (r: bool)
        ensures
            r == (self@ is Plaintext),
    {
        match self {
            ClipboardContent::Plaintext(_) => true,
            ClipboardContent::Image { .. } => false,
        }
    }

    /// Whether the content is an image.
    pub fn is_image(&self) -> (r: bool)
        ensures
            r == (self@ is Image),
    {
        match self {
            ClipboardContent::Plaintext(_) => false,
            ClipboardContent::Image { .. } => true,
        }
    }

    /// A short human-readable summary: the content type and the size.
    pub fn basic_information(&self) -> (r: String)
        ensures
            r@ == basic_information_spec(self@),
    {
        let label: &str = match self {
            ClipboardContent::Plaintext(_) => "text/plain; charset=utf-8",
            ClipboardContent::Image { .. } => "image/png",
        };
        let size = self.len();
        let rendered = format_size_binary(size);
        let out = String::from_str(label).concat(", ").concat(rendered.as_str());
        proof {
            assert(out@ =~= basic_information_spec(self@));
        }
        out
    }
}

impl Default for ClipboardContent {
    /// The default content is the empty text.
    fn default() -> (r: Self)
        ensures
            r@ == (ContentView::Plaintext { text: Seq::<char>::empty() }),
    {
        ClipboardContent::Plaintext(String::new())
    }
}

/// A character sequence has an empty UTF-8 encoding exactly when it is empty.
proof fn lemma_utf8_len_zero(t: Seq<char>)
    ensures
        (vstd::utf8::encode_utf8(t).len() == 0) <==> (t.len() == 0),
{
    if t.len() > 0 {
        assert(vstd::utf8::encode_scalar(t[0] as u32).len() >= 1);
    }
}

/// Tests two byte vectors for equality.
fn bytes_eq(a: &Vec<u8>, b: &Vec<u8>) -> (r: bool)
    ensures
        r == (a@ == b@),
{
    if a.len() != b.len() {
        return false;
    }
    let mut i: usize = 0;
    while i < a.len()
        invariant
            i <= a.len() == b.len(),
            forall|j: int| 0 <= j < i ==> a@[j] == b@[j],
        decreases a.len() - i,
    {
        if a[i] != b[i] {
            return false;
        }
        i = i + 1;
    }
    proof {
        assert(a@ =~= b@);
    }
    true
}

impl PartialEq for ClipboardContent {
    /// Structural equality over the full variant: for images the width and
    /// height count as much as the payload bytes.
    fn eq(&self, other: &Self) -> (r: bool) {
        match (self, other) {
            (ClipboardContent::Plaintext(a), ClipboardContent::Plaintext(b)) => {
                let r = *a == *b;
                proof {
                    assert(r == (self@ == other@));
                }
                r
            },
            (
                ClipboardContent::Image { width: w1, height: h1, bytes: b1 },
                ClipboardContent::Image { width: w2, height: h2, bytes: b2 },
            ) => {
                let r = *w1 == *w2 && *h1 == *h2 && bytes_eq(b1, b2);
                proof {
                    assert(r == (self@ == other@));
                }
                r
            },
            _ => false,
        }
    }
}

/// Copies a byte vector.
fn copy_bytes(v: &Vec<u8>) -> (r: Vec<u8>)
    ensures
        r@ == v@,
{
    let mut r: Vec<u8> = Vec::new();
    let mut i: usize = 0;
    while i < v.len()
        invariant
            i <= v.len(),
            r@ == v@.take(i as int),
        decreases v.len() - i,
    {
        r.push(v[i]);
        proof {
            assert(v@.take(i + 1 as int) =~= v@.take(i as int).push(v@[i as int]));
        }
        i = i + 1;
    }
    proof {
        assert(v@.take(v@.len() as int) =~= v@);
    }
    r
}

impl Clone for ClipboardContent {
    /// A clone carries the same view as the original.
    fn clone(&self) -> (r: Self)
        ensures
            r@ == self@,
    {
        match self {
            ClipboardContent::Plaintext(s) => ClipboardContent::Plaintext(s.clone()),
            ClipboardContent::Image { width, height, bytes } => ClipboardContent::Image {
                width: *width,
                height: *height,
                bytes: copy_bytes(bytes),
            },
        }
    }
}

impl Eq for ClipboardContent {

}

impl vstd::std_specs::cmp::PartialEqSpecImpl for ClipboardContent {
    open spec fn obeys_eq_spec() -> bool {
        true
    }

    open spec fn eq_spec(&self, other: &Self) -> bool {
        self@ == other@
    }
}

} // verus!
