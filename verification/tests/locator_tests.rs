use memochan::locator::{line_index, locate};
use memochan::scroll::{scroll_target, ScrollSync};

#[test]
fn locate_after_a_newline() {
    assert_eq!(locate("ab\ncd", 3), (2, 1));
}

#[test]
fn locate_at_the_start() {
    assert_eq!(locate("hello", 0), (1, 1));
}

#[test]
fn locate_at_the_end() {
    assert_eq!(locate("hello", 5), (1, 6));
}

#[test]
fn locate_clamps_out_of_range_offsets() {
    assert_eq!(locate("hello", 100), (1, 6));
    assert_eq!(locate("ab\ncd", 100), (2, 3));
}

#[test]
fn locate_on_empty_document() {
    assert_eq!(locate("", 0), (1, 1));
    assert_eq!(locate("", 7), (1, 1));
}

#[test]
fn locate_counts_characters_not_bytes() {
    // 'é' is one character of two bytes
    assert_eq!(locate("é\nx", 2), (2, 1));
    assert_eq!(locate("éé", 2), (1, 3));
}

#[test]
fn locate_on_newline_boundaries() {
    let doc = "a\nbb\nccc";
    assert_eq!(locate(doc, 1), (1, 2));
    assert_eq!(locate(doc, 2), (2, 1));
    assert_eq!(locate(doc, 4), (2, 3));
    assert_eq!(locate(doc, 8), (3, 4));
}

#[test]
fn line_index_counts_newlines_before_offset() {
    let doc = "a\nbb\nccc";
    assert_eq!(line_index(doc, 0), 0);
    assert_eq!(line_index(doc, 2), 1);
    assert_eq!(line_index(doc, 8), 2);
    assert_eq!(line_index(doc, 100), 2);
}

#[test]
fn scroll_target_uses_the_line_height_model() {
    let doc = "a\nbb\nccc";
    // first line scrolls to the top
    assert_eq!(scroll_target(doc, 0, 14), 0);
    // third line: index 2, in half-pixels: 2 * 14 * 3
    assert_eq!(scroll_target(doc, 6, 14), 84);
    // out-of-range offsets clamp to the end of the text
    assert_eq!(scroll_target(doc, 1000, 14), 84);
    assert_eq!(scroll_target("", 0, 14), 0);
}

#[test]
fn scroll_sync_flag_is_consumed_on_read() {
    let mut sync = ScrollSync::new();
    assert!(!sync.consume());
    sync.mark_programmatic();
    assert!(sync.consume());
    // consumed: the next read no longer suppresses
    assert!(!sync.consume());
}
