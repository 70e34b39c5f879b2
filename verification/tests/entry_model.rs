//! Tests of the content model: identity, equality, ordering, rendering.

use clipwatch::{ClipEntry, ClipboardContent, ClipboardKind};

const TEXT_PLAIN: &str = "text/plain; charset=utf-8";

#[test]
fn identical_content_identical_id() {
    let a = ClipboardContent::Plaintext(String::from("hello"));
    let b = ClipboardContent::Plaintext(String::from("hello"));
    assert_eq!(ClipEntry::compute_id(&a), ClipEntry::compute_id(&b));
}

#[test]
fn identity_digest_has_known_values() {
    // FNV-1a over the canonical encoding: the text tag byte, then the UTF-8
    // bytes of the text.
    let hello = ClipboardContent::Plaintext(String::from("hello"));
    assert_eq!(ClipEntry::compute_id(&hello), 0x3b6dba0d69908e25);
    let empty = ClipboardContent::Plaintext(String::new());
    assert_eq!(ClipEntry::compute_id(&empty), 0xaf63bd4c8601b7df);
}

#[test]
fn differing_content_differing_id() {
    let a = ClipboardContent::Plaintext(String::from("hello"));
    let b = ClipboardContent::Plaintext(String::from("hello!"));
    let c = ClipboardContent::Plaintext(String::new());
    assert_ne!(ClipEntry::compute_id(&a), ClipEntry::compute_id(&b));
    assert_ne!(ClipEntry::compute_id(&a), ClipEntry::compute_id(&c));
}

#[test]
fn image_identity_includes_dimensions() {
    let a = ClipboardContent::Image { width: 2, height: 3, bytes: vec![1, 2, 3] };
    let b = ClipboardContent::Image { width: 3, height: 2, bytes: vec![1, 2, 3] };
    let c = ClipboardContent::Image { width: 2, height: 3, bytes: vec![1, 2, 3] };
    assert_ne!(ClipEntry::compute_id(&a), ClipEntry::compute_id(&b));
    assert_eq!(ClipEntry::compute_id(&a), ClipEntry::compute_id(&c));
    assert!(a != b);
    assert!(a == c);
}

#[test]
fn id_is_stable_across_observations() {
    let e1 = ClipEntry::from_string("the same clip", ClipboardKind::Clipboard);
    let e2 = ClipEntry::from_string("the same clip", ClipboardKind::Primary);
    assert_eq!(e1.id(), e2.id());
    assert!(e1 == e2);
}

#[test]
fn mark_changes_kind_but_not_identity() {
    let mut e = ClipEntry::from_string("clip", ClipboardKind::Clipboard);
    let before = e.clone();
    e.mark(ClipboardKind::Secondary);
    assert_eq!(e.kind(), ClipboardKind::Secondary);
    assert_eq!(e.id(), before.id());
    assert_eq!(e.as_utf8_string(), before.as_utf8_string());
    assert!(e == before);
}

#[test]
fn order_is_newest_first() {
    let newer = ClipEntry::new(b"a", TEXT_PLAIN, ClipboardKind::Secondary, Some(100));
    let older = ClipEntry::new(b"b", TEXT_PLAIN, ClipboardKind::Clipboard, Some(50));
    assert_eq!(newer.partial_cmp(&older), Some(std::cmp::Ordering::Less));
    assert_eq!(older.partial_cmp(&newer), Some(std::cmp::Ordering::Greater));
    assert!(newer < older);
}

#[test]
fn equal_timestamps_order_by_kind() {
    let a = ClipEntry::new(b"a", TEXT_PLAIN, ClipboardKind::Clipboard, Some(7));
    let b = ClipEntry::new(b"b", TEXT_PLAIN, ClipboardKind::Primary, Some(7));
    assert_eq!(a.partial_cmp(&b), Some(std::cmp::Ordering::Less));
    assert!(a < b);
    let c = ClipEntry::new(b"a", TEXT_PLAIN, ClipboardKind::Primary, Some(7));
    assert_eq!(b.partial_cmp(&c), Some(std::cmp::Ordering::Equal));
}

#[test]
fn new_decodes_text_formats() {
    let e = ClipEntry::new(b"h\xC3\xA9llo", TEXT_PLAIN, ClipboardKind::Clipboard, Some(0));
    assert!(e.is_text());
    assert!(e.is_utf8_string());
    assert_eq!(e.as_utf8_string(), "héllo");
}

#[test]
fn new_replaces_invalid_utf8() {
    let e = ClipEntry::new(b"\xFF", TEXT_PLAIN, ClipboardKind::Clipboard, Some(0));
    assert_eq!(e.as_utf8_string(), "\u{FFFD}");
}

#[test]
fn new_with_non_text_format_yields_empty_text() {
    let e = ClipEntry::new(b"{}", "application/json", ClipboardKind::Clipboard, Some(0));
    assert_eq!(e.as_utf8_string(), "");
    let e = ClipEntry::new(b"x", "not a mime at all", ClipboardKind::Clipboard, Some(0));
    assert_eq!(e.as_utf8_string(), "");
}

#[test]
fn new_keeps_given_timestamp() {
    let e = ClipEntry::new(b"x", TEXT_PLAIN, ClipboardKind::Clipboard, Some(12345));
    assert_eq!(e.timestamp(), 12345);
}

#[test]
fn printable_truncates_single_line() {
    let e = ClipEntry::from_string("hello world", ClipboardKind::Clipboard);
    assert_eq!(e.printable_data(Some(5)), "he...");
}

#[test]
fn printable_no_limit_escapes_controls() {
    let e = ClipEntry::from_string("a\tb\r\nc", ClipboardKind::Clipboard);
    assert_eq!(e.printable_data(None), "a\\tb\\r\\nc");
    assert_eq!(e.printable_data(Some(0)), "a\\tb\\r\\nc");
}

#[test]
fn printable_marks_line_count() {
    let e = ClipEntry::from_string("one\ntwo\nthree", ClipboardKind::Clipboard);
    let out = e.printable_data(Some(10));
    assert_eq!(out, "...(3 lines)");
}

#[test]
fn printable_within_limit_is_unchanged() {
    let e = ClipEntry::from_string("short", ClipboardKind::Clipboard);
    assert_eq!(e.printable_data(Some(10)), "short");
}

#[test]
fn printable_respects_budget() {
    let text = "some fairly long multi-line text\nwith a second line\nand a third";
    let e = ClipEntry::from_string(text, ClipboardKind::Clipboard);
    for limit in 1..40usize {
        let out = e.printable_data(Some(limit));
        let marker_len = "...(3 lines)".len();
        assert!(out.chars().count() <= limit + marker_len);
    }
}

#[test]
fn printable_budget_counts_escapes() {
    // Eight tabs display as sixteen characters; the kept prefix is measured
    // after escaping, so the rendering stays within the budget.
    let e = ClipEntry::from_string("\t\t\t\t\t\t\t\t", ClipboardKind::Clipboard);
    let out = e.printable_data(Some(7));
    assert_eq!(out, "\\t\\t...");
    assert!(out.chars().count() <= 7 + "...".len());
}

#[test]
fn printable_budget_counts_escapes_multi_line() {
    let e = ClipEntry::from_string("one\ntwo\nthree\nfour\nfive", ClipboardKind::Clipboard);
    let out = e.printable_data(Some(20));
    assert_eq!(out, "one\\ntwo...(5 lines)");
    assert_eq!(out.chars().count(), 20);
}

#[test]
fn printable_budget_holds_for_control_dense_text() {
    let text = "a\tb\tc\td\te\nf\tg\th\ti\tj\nk\tl\tm\tn\to";
    let e = ClipEntry::from_string(text, ClipboardKind::Clipboard);
    for limit in 1..50usize {
        let out = e.printable_data(Some(limit));
        let marker_len = "...(3 lines)".len();
        assert!(out.chars().count() <= limit + marker_len);
    }
}

#[test]
fn printable_image_summary() {
    let e = ClipEntry {
        id: 0,
        content: ClipboardContent::Image { width: 2, height: 2, bytes: vec![9, 9, 9] },
        clipboard_kind: ClipboardKind::Clipboard,
        timestamp: 0,
    };
    assert_eq!(
        e.printable_data(None),
        "content-type: image/png, size: 3, timestamp: 1970-01-01T00:00:00+00:00"
    );
}

#[test]
fn basic_information_renders_type_and_size() {
    let text = ClipboardContent::Plaintext(String::from("hello"));
    assert_eq!(text.basic_information(), "text/plain; charset=utf-8, 5 B");
    let image = ClipboardContent::Image { width: 1, height: 1, bytes: vec![0u8; 2048] };
    assert_eq!(image.basic_information(), "image/png, 2 KiB");
}

#[test]
fn content_len_and_emptiness() {
    let text = ClipboardContent::Plaintext(String::from("hé"));
    assert_eq!(text.len(), 3);
    assert!(!text.is_empty());
    assert!(text.is_plaintext());
    assert!(!text.is_image());
    let empty = ClipboardContent::Plaintext(String::new());
    assert!(empty.is_empty());
    let image = ClipboardContent::Image { width: 0, height: 0, bytes: Vec::new() };
    assert!(image.is_empty());
    assert!(image.is_image());
}

#[test]
fn entry_bytes_and_mime() {
    let e = ClipEntry::from_string("hé", ClipboardKind::Clipboard);
    assert_eq!(e.as_bytes(), "hé".as_bytes());
    assert_eq!(e.mime(), "text/plain; charset=utf-8");
    let img = ClipEntry {
        id: 0,
        content: ClipboardContent::Image { width: 1, height: 1, bytes: vec![4, 5] },
        clipboard_kind: ClipboardKind::Clipboard,
        timestamp: 0,
    };
    assert_eq!(img.as_bytes(), &[4, 5]);
    assert_eq!(img.mime(), "image/png");
}

#[test]
fn default_entry_is_well_formed() {
    let d = ClipEntry::default();
    assert_eq!(d.kind(), ClipboardKind::Clipboard);
    assert_eq!(d.timestamp(), 0);
    assert_eq!(d.as_utf8_string(), "");
    let empty = ClipboardContent::Plaintext(String::new());
    assert_eq!(d.id(), ClipEntry::compute_id(&empty));
}

#[test]
fn to_clipboard_content_round_trips() {
    let content = ClipboardContent::Image { width: 4, height: 5, bytes: vec![1, 2] };
    let e = ClipEntry::from_clipboard_content(content.clone(), ClipboardKind::Primary);
    assert!(e.to_clipboard_content() == content);
    assert_eq!(e.kind(), ClipboardKind::Primary);
    assert_eq!(e.id(), ClipEntry::compute_id(&content));
}
