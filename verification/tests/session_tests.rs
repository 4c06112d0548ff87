use memochan::highlight::SyntaxHighlighter;
use memochan::session::EditorSession;
use memochan::view_state::{EditorTab, PreviewLayout};

#[test]
fn fresh_session_is_blank() {
    let s = EditorSession::new();
    assert_eq!(s.text, "");
    assert!(!s.modified);
    assert_eq!(s.current_syntax, None);
    assert!(s.auto_detect);
    assert_eq!(s.preview_layout, PreviewLayout::Hidden);
    assert_eq!(s.active_tab, EditorTab::Editor);
    assert_eq!((s.cur_line, s.cur_col), (1, 1));
    assert!(s.search.hits.is_empty());
    assert_eq!(s.editor_scroll, 0);
    assert!(!s.sync.programmatic);
}

#[test]
fn loading_a_rust_file_detects_the_language() {
    let hl = SyntaxHighlighter::new();
    let mut s = EditorSession::new();
    s.load_document("fn main() {}\n", &hl, Some("rs"));
    assert_eq!(s.text, "fn main() {}\n");
    assert_eq!(s.current_syntax.as_deref(), Some("Rust"));
    assert_eq!(s.preview_layout, PreviewLayout::Hidden);
    assert!(!s.modified);
    assert!(s.history.undo_stack.is_empty());
}

#[test]
fn loading_a_markdown_file_opens_the_preview() {
    let hl = SyntaxHighlighter::new();
    let mut s = EditorSession::new();
    s.load_document("# hi\n", &hl, Some("md"));
    assert_eq!(s.current_syntax.as_deref(), Some("Markdown"));
    assert_eq!(s.preview_layout, PreviewLayout::Tabs);
    assert_eq!(s.active_tab, EditorTab::Editor);
}

#[test]
fn loading_an_unknown_extension_clears_the_language() {
    let hl = SyntaxHighlighter::new();
    let mut s = EditorSession::new();
    s.load_document("data", &hl, Some("qqq"));
    assert_eq!(s.current_syntax, None);
    s.load_document("data", &hl, None);
    assert_eq!(s.current_syntax, None);
}

#[test]
fn new_document_resets_the_session() {
    let hl = SyntaxHighlighter::new();
    let mut s = EditorSession::new();
    s.load_document("# hi\n", &hl, Some("md"));
    s.search_query = "hi".to_string();
    s.run_search(14);
    s.new_document();
    assert_eq!(s.text, "");
    assert_eq!(s.current_syntax, None);
    assert_eq!(s.preview_layout, PreviewLayout::Hidden);
    assert_eq!(s.search_query, "");
    assert!(s.search.hits.is_empty());
    assert_eq!(s.editor_scroll, 0);
}

#[test]
fn edits_are_recorded_and_undone() {
    let mut s = EditorSession::new();
    s.text = "a".to_string();
    s.record_edit();
    assert!(s.modified);
    s.text = "ab".to_string();
    s.record_edit();
    assert_eq!(s.history.undo_stack.len(), 2);
    s.undo_edit();
    assert_eq!(s.text, "a");
    s.undo_edit();
    assert_eq!(s.text, "");
    s.undo_edit();
    assert_eq!(s.text, "");
    s.redo_edit();
    assert_eq!(s.text, "a");
    s.redo_edit();
    assert_eq!(s.text, "ab");
    s.redo_edit();
    assert_eq!(s.text, "ab");
}

#[test]
fn searching_scrolls_to_the_first_hit() {
    let mut s = EditorSession::new();
    s.text = "line1\nline2 foo\nline3 foo".to_string();
    s.search_query = "foo".to_string();
    s.run_search(14);
    let offs: Vec<usize> = s.search.hits.iter().map(|h| h.offset).collect();
    assert_eq!(offs, vec![12, 22]);
    // first hit is on the second line: one line height of 14 * 1.5, in half-px
    assert_eq!(s.editor_scroll, 14 * 3);
    assert!(s.sync.programmatic);
    assert!(s.search.active);
}

#[test]
fn navigation_moves_the_scroll_with_the_hit() {
    let mut s = EditorSession::new();
    s.text = "line1\nline2 foo\nline3 foo".to_string();
    s.search_query = "foo".to_string();
    s.run_search(14);
    assert!(s.sync.consume());
    s.next_result(14);
    assert_eq!(s.search.current, 1);
    assert_eq!(s.editor_scroll, 2 * 14 * 3);
    assert!(s.sync.consume());
    assert!(!s.sync.consume());
    s.prev_result(14);
    assert_eq!(s.search.current, 0);
    assert_eq!(s.editor_scroll, 14 * 3);
}

#[test]
fn closing_the_search_hands_back_the_current_offset() {
    let mut s = EditorSession::new();
    s.text = "foo bar foo".to_string();
    s.search_query = "foo".to_string();
    s.run_search(14);
    s.next_result(14);
    let off = s.close_search();
    assert_eq!(off, Some(8));
    assert!(!s.search.active);
    // without hits there is no offset to move the cursor to
    let mut s2 = EditorSession::new();
    s2.text = "abc".to_string();
    s2.search_query = "zz".to_string();
    s2.run_search(14);
    assert_eq!(s2.close_search(), None);
}

#[test]
fn cursor_follows_an_offset() {
    let mut s = EditorSession::new();
    s.text = "ab\ncd".to_string();
    s.update_cursor(3);
    assert_eq!((s.cur_line, s.cur_col), (2, 1));
    s.update_cursor(0);
    assert_eq!((s.cur_line, s.cur_col), (1, 1));
    s.update_cursor(99);
    assert_eq!((s.cur_line, s.cur_col), (2, 3));
}
