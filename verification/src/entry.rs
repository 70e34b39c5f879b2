//! A clipboard entry: content plus a content-derived identity, the selection
//! kind it was seen on, and the time it was (last) observed.
//!
//! The identity is a 64-bit FNV-1a digest of a canonical encoding of the
//! content, so byte-identical contents always get the same id, wherever and
//! whenever they were observed. Equality of entries is over content alone;
//! the order is newest-first with the selection kind as tie-break.

use core::cmp::Ordering;
use vstd::prelude::*;
use vstd::string::StringExecFns;

use crate::content::{mime_class, mime_class_of, ClipboardContent, ContentView};
use crate::kind::ClipboardKind;
use crate::text::{
    dec_chars, dec_spec, escape_chars, escape_spec, escape_within, keep_within_spec,
    lemma_keep_within_budget, line_count, line_count_spec, string_from_chars, text_chars,
};

verus! {

pub const FNV_OFFSET: u64 = 0xcbf2_9ce4_8422_2325;

pub const FNV_PRIME: u64 = 0x0000_0100_0000_01b3;

/// One FNV-1a round: fold a byte into the running digest.
pub open spec fn fnv_step(h: u64, b: u8) -> u64 {
    (h ^ (b as u64)).wrapping_mul(FNV_PRIME)
}

/// FNV-1a digest of `s` continued from the running value `h`.
pub open spec fn fnv_from(h: u64, s: Seq<u8>) -> u64
    decreases s.len(),
{
    if s.len() == 0 {
        h
    } else {
        fnv_from(fnv_step(h, s[0]), s.drop_first())
    }
}

/// FNV-1a digest of a byte sequence.
pub open spec fn fnv64_spec(s: Seq<u8>) -> u64 {
    fnv_from(FNV_OFFSET, s)
}

/// Little-endian byte `i` of `x`.
pub open spec fn u64_byte(x: u64, i: int) -> u8 {
    (x >> ((8 * i) as u64)) as u8
}

/// The eight little-endian bytes of `x`.
pub open spec fn u64_le_spec(x: u64) -> Seq<u8> {
    Seq::new(8, |i: int| u64_byte(x, i))
}

/// Canonical byte encoding of a content value, the input of the identity
/// digest: a variant tag, then for text its UTF-8 bytes, and for an image its
/// width and height (little-endian) followed by the payload bytes. Width and
/// height are part of the identity on purpose.
pub open spec fn content_bytes_spec(v: ContentView) -> Seq<u8> {
    match v {
        ContentView::Plaintext { text } => seq![0u8] + vstd::utf8::encode_utf8(text),
        ContentView::Image { width, height, bytes } => seq![1u8] + u64_le_spec(width as u64)
            + u64_le_spec(height as u64) + bytes,
    }
}

/// The identity of a content value.
pub open spec fn content_id_spec(v: ContentView) -> u64 {
    fnv64_spec(content_bytes_spec(v))
}

/// Computes the FNV-1a digest of `bytes`.
fn fnv64(bytes: &Vec<u8>) -> (r: u64)
    ensures
        r == fnv64_spec(bytes@),
{
    let mut h: u64 = FNV_OFFSET;
    let mut i: usize = 0;
    proof {
        assert(bytes@.skip(0) =~= bytes@);
    }
    while i < bytes.len()
        invariant
            i <= bytes.len(),
            fnv_from(h, bytes@.skip(i as int)) == fnv64_spec(bytes@),
        decreases bytes.len() - i,
    {
        proof {
            assert(bytes@.skip(i as int)[0] == bytes@[i as int]);
            assert(bytes@.skip(i as int).drop_first() =~= bytes@.skip(i + 1 as int));
        }
        h = (h ^ (bytes[i] as u64)).wrapping_mul(FNV_PRIME);
        i = i + 1;
    }
    proof {
        assert(bytes@.skip(bytes@.len() as int) =~= Seq::<u8>::empty());
    }
    h
}

/// Appends the eight little-endian bytes of `x`.
fn push_u64_le(v: &mut Vec<u8>, x: u64)
    ensures
        final(v)@ == old(v)@ + u64_le_spec(x),
{
    let mut i: usize = 0;
    while i < 8
        invariant
            i <= 8,
            v@ == old(v)@ + u64_le_spec(x).take(i as int),
        decreases 8 - i,
    {
        let k: u64 = (8 * i) as u64;
        v.push((x >> k) as u8);
        proof {
            assert(u64_le_spec(x).take(i + 1 as int) =~= u64_le_spec(x).take(i as int).push(
                u64_byte(x, i as int),
            ));
            assert(v@ =~= old(v)@ + u64_le_spec(x).take(i + 1 as int));
        }
        i = i + 1;
    }
    proof {
        assert(u64_le_spec(x).take(8) =~= u64_le_spec(x));
    }
}

/// Appends every byte of the slice `b`.
fn push_bytes(v: &mut Vec<u8>, b: &[u8])
    ensures
        final(v)@ == old(v)@ + b@,
{
    proof {
        broadcast use vstd::slice::axiom_spec_len;

    }
    let mut i: usize = 0;
    let n = b.len();
    while i < n
        invariant
            i <= n,
            n == b@.len(),
            v@ == old(v)@ + b@.take(i as int),
        decreases n - i,
    {
        let x = *vstd::slice::slice_index_get(b, i);
        v.push(x);
        proof {
            assert(b@.take(i + 1 as int) =~= b@.take(i as int).push(b@[i as int]));
            assert(v@ =~= old(v)@ + b@.take(i + 1 as int));
        }
        i = i + 1;
    }
    proof {
        assert(b@.take(b@.len() as int) =~= b@);
    }
}

/// What `String::from_utf8_lossy` yields for a byte sequence.
pub uninterp spec fn lossy_utf8(b: Seq<u8>) -> Seq<char>;

/// Relies on `String::from_utf8_lossy`: the decoding depends on the bytes
/// alone, and bytes that are the UTF-8 encoding of a character sequence
/// decode back to exactly that sequence.
#[verifier::external_body]
fn utf8_lossy(data: &[u8]) -> (r: String)
    ensures
        r@ == lossy_utf8(data@),
        forall|t: Seq<char>| data@ == vstd::utf8::encode_utf8(t) ==> r@ == t,
{
    String::from_utf8_lossy(data).to_string()
}

/// What `chrono` renders, in RFC 3339 form, for a UTC timestamp given in
/// milliseconds since the epoch.
pub uninterp spec fn rfc3339_of(ms: int) -> Seq<char>;

/// Relies on chrono's `DateTime::<Utc>::from_timestamp_millis` and
/// `to_rfc3339`: the rendered timestamp is a function of the millisecond
/// value alone.
#[verifier::external_body]
fn rfc3339_utc(ms: u64) -> (r: String)
    ensures
        r@ == rfc3339_of(ms as int),
{
    match chrono::DateTime::<chrono::Utc>::from_timestamp_millis(ms as i64) {
        Some(dt) => dt.to_rfc3339(),
        None => String::new(),
    }
}

/// Relies on `std::time::SystemTime::now`: nothing is promised of the clock
/// reading, beyond it being some number of milliseconds.
#[verifier::external_body]
fn now_millis() -> (r: u64) {
    match std::time::SystemTime::now().duration_since(std::time::UNIX_EPOCH) {
        Ok(d) => d.as_millis() as u64,
        Err(_) => 0,
    }
}

/// A clip as observed on some selection: its content, the content-derived
/// identity, the selection kind, and the observation time in milliseconds
/// since the epoch.
#[derive(Debug)]
pub struct ClipEntry {
    pub id: u64,
    pub content: ClipboardContent,
    pub clipboard_kind: ClipboardKind,
    pub timestamp: u64,
}

/// The truncation marker appended to over-long renderings: bare dots for a
/// single line, or dots naming the line count for multi-line text.
pub open spec fn marker_spec(lc: nat) -> Seq<char> {
    if lc > 1 {
        "...("@ + dec_spec(lc as int) + " lines)"@
    } else {
        "..."@
    }
}

/// The displayed rendering of `data` under a limit: control characters are
/// escaped, and text whose escaped form is over the limit is cut so that the
/// escaped prefix plus the marker stays within it. The budget is measured on
/// the escaped rendering, since that is what is displayed: an escape turns
/// one character into two, and those two count.
pub open spec fn clip_spec(data: Seq<char>, ll: Option<usize>) -> Seq<char> {
    match ll {
        Option::None => escape_spec(data),
        Option::Some(l) => {
            if l == 0 || escape_spec(data).len() <= l {
                escape_spec(data)
            } else {
                let m = marker_spec(line_count_spec(data));
                let budget: int = if l >= m.len() {
                    l - m.len()
                } else {
                    0
                };
                escape_spec(data.take(keep_within_spec(data, budget))) + m
            }
        },
    }
}

/// The one-line base rendering of an entry: the text itself, or a summary
/// line for an image.
pub open spec fn render_base_spec(v: ContentView, ts: u64) -> Seq<char> {
    match v {
        ContentView::Plaintext { text } => text,
        ContentView::Image { bytes, .. } => "content-type: image/png, size: "@ + dec_spec(
            bytes.len() as int,
        ) + ", timestamp: "@ + rfc3339_of(ts as int),
    }
}

/// Everything `printable_data` does: render, escape newlines, carriage
/// returns and tabs, and truncate the escaped rendering to the limit.
pub open spec fn printable_spec(v: ContentView, ts: u64, ll: Option<usize>) -> Seq<char> {
    clip_spec(render_base_spec(v, ts), ll)
}

impl ClipEntry {
    /// The entry's identity is exactly the digest of its content.
    pub open spec fn wf(&self) -> bool {
        self.id == content_id_spec(self.content@)
    }

    /// The identity digest of a content value.
    pub fn compute_id(data: &ClipboardContent) -> (r: u64)
        ensures
            r == content_id_spec(data@),
    {
        let mut canon: Vec<u8> = Vec::new();
        match data {
            ClipboardContent::Plaintext(s) => {
                canon.push(0u8);
                push_bytes(&mut canon, s.as_str().as_bytes());
            },
            ClipboardContent::Image { width, height, bytes } => {
                canon.push(1u8);
                push_u64_le(&mut canon, *width as u64);
                push_u64_le(&mut canon, *height as u64);
                push_bytes(&mut canon, bytes.as_slice());
            },
        }
        proof {
            assert(canon@ =~= content_bytes_spec(data@));
        }
        fnv64(&canon)
    }

    /// Builds an entry from raw bytes and the format they were announced
    /// under. Bytes of a text format are decoded as UTF-8 (lossily, so bytes
    /// that are the UTF-8 encoding of a character sequence become exactly
    /// that text); any other format currently yields the empty text. A
    /// missing timestamp means "now".
    pub fn new(data: &[u8], format: &str, clipboard_kind: ClipboardKind, timestamp: Option<
        u64,
    >) -> (r: Self)
        ensures
            r.wf(),
            r.content@ == (if mime_class_of(format@) == 1 {
                ContentView::Plaintext { text: lossy_utf8(data@) }
            } else {
                ContentView::Plaintext { text: Seq::<char>::empty() }
            }),
            forall|t: Seq<char>|
                mime_class_of(format@) == 1 && data@ == vstd::utf8::encode_utf8(t)
                    ==> r.content@ == (ContentView::Plaintext { text: t }),
            r.clipboard_kind == clipboard_kind,
            timestamp matches Some(t) ==> r.timestamp == t,
    {
        let content = if mime_class(format) == 1 {
            ClipboardContent::Plaintext(utf8_lossy(data))
        } else {
            ClipboardContent::Plaintext(String::new())
        };
        let id = Self::compute_id(&content);
        let ts = match timestamp {
            Some(t) => t,
            None => now_millis(),
        };
        ClipEntry { id, content, clipboard_kind, timestamp: ts }
    }

    /// Builds a text entry observed now.
    pub fn from_string(s: &str, clipboard_kind: ClipboardKind) -> (r: Self)
        ensures
            r.wf(),
            r.content@ == (ContentView::Plaintext { text: s@ }),
            r.clipboard_kind == clipboard_kind,
    {
        let content = ClipboardContent::Plaintext(String::from_str(s));
        Self::from_clipboard_content(content, clipboard_kind)
    }

    /// Wraps an already-read content value, observed now.
    pub fn from_clipboard_content(content: ClipboardContent, clipboard_kind: ClipboardKind) -> (r:
        Self)
        ensures
            r.wf(),
            r.content == content,
            r.clipboard_kind == clipboard_kind,
    {
        let id = Self::compute_id(&content);
        ClipEntry { id, content, clipboard_kind, timestamp: now_millis() }
    }

    /// The content-derived identity.
    pub fn id(&self) -> (r: u64)
        ensures
            r == self.id,
    {
        self.id
    }

    /// The selection kind the entry was (last) seen on.
    pub fn kind(&self) -> (r: ClipboardKind)
        ensures
            r == self.clipboard_kind,
    {
        self.clipboard_kind
    }

    /// Milliseconds since the epoch at which the entry was (last) observed.
    pub fn timestamp(&self) -> (r: u64)
        ensures
            r == self.timestamp,
    {
        self.timestamp
    }

    /// Whether the content is text.
    pub fn is_text(&self) -> (r: bool)
        ensures
            r == (self.content@ is Plaintext),
    {
        self.content.is_plaintext()
    }

    /// Whether the content is UTF-8 text (the same as `is_text`: text
    /// content is always held as a UTF-8 string).
    pub fn is_utf8_string(&self) -> (r: bool)
        ensures
            r == (self.content@ is Plaintext),
    {
        self.content.is_plaintext()
    }

    /// The text of the entry, or the empty string for an image.
    pub fn as_utf8_string(&self) -> (r: String)
        ensures
            r@ == (match self.content@ {
                ContentView::Plaintext { text } => text,
                ContentView::Image { .. } => Seq::<char>::empty(),
            }),
    {
        match &self.content {
            ClipboardContent::Plaintext(s) => s.clone(),
            ClipboardContent::Image { .. } => String::new(),
        }
    }

    /// A one-line rendering for menus and logs: text (or an image summary)
    /// with newlines, carriage returns and tabs escaped, truncated when a
    /// positive limit is given so that what is shown — escapes counted as the
    /// two characters they display as, plus a marker naming the cut and, for
    /// multi-line text, the line count — stays within the limit's budget.
    pub fn printable_data(&self, line_length: Option<usize>) -> (r: String)
        ensures
            r@ == printable_spec(self.content@, self.timestamp, line_length),
    {
        let data: Vec<char> = match &self.content {
            ClipboardContent::Plaintext(t) => text_chars(t.as_str()),
            ClipboardContent::Image { bytes, .. } => {
                let mut d = text_chars("content-type: image/png, size: ");
                let mut num = dec_chars(bytes.len());
                d.append(&mut num);
                let mut mid = text_chars(", timestamp: ");
                d.append(&mut mid);
                let ts_str = rfc3339_utc(self.timestamp);
                let mut tail = text_chars(ts_str.as_str());
                d.append(&mut tail);
                proof {
                    assert(d@ =~= render_base_spec(self.content@, self.timestamp));
                }
                d
            },
        };
        let escaped = escape_chars(&data);
        let out: Vec<char> = match line_length {
            Some(l) => {
                if l > 0 && escaped.len() > l {
                    let lc = line_count(&data);
                    let mut m: Vec<char> = if lc > 1 {
                        let mut m = text_chars("...(");
                        let mut digits = dec_chars(lc);
                        m.append(&mut digits);
                        let mut tail = text_chars(" lines)");
                        m.append(&mut tail);
                        proof {
                            assert(m@ =~= marker_spec(line_count_spec(data@)));
                        }
                        m
                    } else {
                        text_chars("...")
                    };
                    let budget: usize = if l >= m.len() {
                        l - m.len()
                    } else {
                        0
                    };
                    let mut kept = escape_within(&data, budget);
                    kept.append(&mut m);
                    proof {
                        assert(kept@ =~= clip_spec(data@, line_length));
                    }
                    kept
                } else {
                    escaped
                }
            },
            None => escaped,
        };
        string_from_chars(&out)
    }

    /// Re-marks the entry as just observed on `clipboard_kind`: the kind and
    /// the timestamp change, the content and the identity never do.
    pub fn mark(&mut self, clipboard_kind: ClipboardKind)
        ensures
            final(self).id == old(self).id,
            final(self).content == old(self).content,
            final(self).clipboard_kind == clipboard_kind,
            old(self).wf() ==> final(self).wf(),
    {
        self.clipboard_kind = clipboard_kind;
        self.timestamp = now_millis();
    }

    /// A copy of the content.
    pub fn to_clipboard_content(&self) -> (r: ClipboardContent)
        ensures
            r@ == self.content@,
    {
        self.content.clone()
    }

    /// The raw bytes of the content: UTF-8 for text, the payload for images.
    pub fn as_bytes(&self) -> (r: &[u8])
        ensures
            r@ == (match self.content@ {
                ContentView::Plaintext { text } => vstd::utf8::encode_utf8(text),
                ContentView::Image { bytes, .. } => bytes,
            }),
    {
        match &self.content {
            ClipboardContent::Plaintext(t) => t.as_str().as_bytes(),
            ClipboardContent::Image { bytes, .. } => bytes.as_slice(),
        }
    }

    /// The content type label the entry is announced under.
    pub fn mime(&self) -> (r: String)
        ensures
            r@ == crate::content::content_mime_spec(self.content@),
    {
        match &self.content {
            ClipboardContent::Plaintext(_) => String::from_str("text/plain; charset=utf-8"),
            ClipboardContent::Image { .. } => String::from_str("image/png"),
        }
    }
}

impl Clone for ClipEntry {
    /// A clone carries the same identity, content view, kind and timestamp.
    fn clone(&self) -> (r: Self)
        ensures
            r.id == self.id,
            r.content@ == self.content@,
            r.clipboard_kind == self.clipboard_kind,
            r.timestamp == self.timestamp,
    {
        ClipEntry {
            id: self.id,
            content: self.content.clone(),
            clipboard_kind: self.clipboard_kind,
            timestamp: self.timestamp,
        }
    }
}

impl Default for ClipEntry {
    /// The default entry: empty text, on the default selection, at the
    /// epoch. Its identity is computed from the content like any other.
    fn default() -> (r: Self)
        ensures
            r.wf(),
            r.content@ == (ContentView::Plaintext { text: Seq::<char>::empty() }),
            r.clipboard_kind == ClipboardKind::Clipboard,
            r.timestamp == 0,
    {
        let content = ClipboardContent::Plaintext(String::new());
        let id = Self::compute_id(&content);
        ClipEntry { id, content, clipboard_kind: ClipboardKind::Clipboard, timestamp: 0 }
    }
}

impl PartialEq for ClipEntry {
    /// Entries are equal exactly when their contents are: kind and timestamp
    /// do not count, which is what lets independently-observed clips dedup.
    fn eq(&self, other: &Self) -> (r: bool) {
        self.content == other.content
    }
}

impl Eq for ClipEntry {

}

impl vstd::std_specs::cmp::PartialEqSpecImpl for ClipEntry {
    open spec fn obeys_eq_spec() -> bool {
        true
    }

    open spec fn eq_spec(&self, other: &Self) -> bool {
        self.content@ == other.content@
    }
}

/// The order on entries: newer timestamps come first; equal timestamps are
/// ordered by selection kind, ascending.
pub open spec fn entry_order_spec(a: &ClipEntry, b: &ClipEntry) -> Ordering {
    if a.timestamp > b.timestamp {
        Ordering::Less
    } else if a.timestamp < b.timestamp {
        Ordering::Greater
    } else if a.clipboard_kind.rank_spec() < b.clipboard_kind.rank_spec() {
        Ordering::Less
    } else if a.clipboard_kind.rank_spec() > b.clipboard_kind.rank_spec() {
        Ordering::Greater
    } else {
        Ordering::Equal
    }
}

impl PartialOrd for ClipEntry {
    fn partial_cmp(&self, other: &Self) -> (r: Option<Ordering>) {
        let o = if self.timestamp > other.timestamp {
            Ordering::Less
        } else if self.timestamp < other.timestamp {
            Ordering::Greater
        } else {
            let ra = self.clipboard_kind.rank();
            let rb = other.clipboard_kind.rank();
            if ra < rb {
                Ordering::Less
            } else if ra > rb {
                Ordering::Greater
            } else {
                Ordering::Equal
            }
        };
        Some(o)
    }
}

impl vstd::std_specs::cmp::PartialOrdSpecImpl for ClipEntry {
    open spec fn obeys_partial_cmp_spec() -> bool {
        true
    }

    open spec fn partial_cmp_spec(&self, other: &Self) -> Option<Ordering> {
        Some(entry_order_spec(self, other))
    }
}

/// Entries with byte-identical content always carry the same identity,
/// wherever and whenever each was observed.
pub proof fn law_identity_from_content(a: ClipEntry, b: ClipEntry)
    requires
        a.wf(),
        b.wf(),
        a.content@ == b.content@,
    ensures
        a.id == b.id,
{
}

/// An entry with a newer timestamp precedes an older one whatever their
/// kinds; entries with equal timestamps are ordered by kind, ascending.
pub proof fn law_order_newest_first(a: ClipEntry, b: ClipEntry)
    ensures
        a.timestamp > b.timestamp ==> entry_order_spec(&a, &b) == Ordering::Less,
        a.timestamp == b.timestamp ==> (entry_order_spec(&a, &b) == Ordering::Less
            <==> a.clipboard_kind.rank_spec() < b.clipboard_kind.rank_spec()),
        a.timestamp == b.timestamp && a.clipboard_kind == b.clipboard_kind ==> entry_order_spec(
            &a,
            &b,
        ) == Ordering::Equal,
{
}

/// Truncation respects its budget: the displayed rendering — escapes counted
/// as displayed — never exceeds the limit plus the marker, and a truncated
/// multi-line text always ends with the marker that names its line count.
pub proof fn law_truncation_bounded(data: Seq<char>, limit: usize)
    requires
        limit >= 1,
    ensures
        clip_spec(data, Some(limit)).len() <= limit + marker_spec(line_count_spec(data)).len(),
        escape_spec(data).len() > limit ==> clip_spec(data, Some(limit)).skip(
            clip_spec(data, Some(limit)).len() - marker_spec(line_count_spec(data)).len(),
        ) == marker_spec(line_count_spec(data)),
{
    if escape_spec(data).len() > limit {
        let m = marker_spec(line_count_spec(data));
        let budget: int = if limit >= m.len() {
            limit - m.len()
        } else {
            0
        };
        lemma_keep_within_budget(data, budget);
        let kept = escape_spec(data.take(keep_within_spec(data, budget)));
        assert(clip_spec(data, Some(limit)) == kept + m);
        assert((kept + m).skip(kept.len() as int) =~= m);
    }
}

/// What `printable_data` renders under any positive limit never exceeds the
/// limit plus the length of the truncation marker, for every content value
/// and timestamp.
pub proof fn law_printable_bounded(v: ContentView, ts: u64, limit: usize)
    requires
        limit >= 1,
    ensures
        printable_spec(v, ts, Some(limit)).len() <= limit + marker_spec(
            line_count_spec(render_base_spec(v, ts)),
        ).len(),
{
    law_truncation_bounded(render_base_spec(v, ts), limit);
}

} // verus!
