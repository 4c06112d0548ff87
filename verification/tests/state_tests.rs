use memochan::history::History;
use memochan::language::{
    auto_detect_language, get_default_extension, is_markdown, set_manual_language,
    should_swap_extension,
};
use memochan::highlight::SyntaxHighlighter;
use memochan::str_eq;
use memochan::theme::{Rgba, ThemeColors, ThemeMode};
use memochan::view_state::{
    needs_large_file_confirm, toggle_preview_tab, update_preview_state, zoom_in, zoom_out,
    EditorTab, MenuState, PreviewLayout, DEFAULT_ZOOM_LEVEL, MAX_ZOOM_LEVEL, MIN_ZOOM_LEVEL,
};

#[test]
fn theme_mode_names() {
    assert_eq!(ThemeMode::System.name(), "System");
    assert_eq!(ThemeMode::Light.name(), "Light");
    assert_eq!(ThemeMode::Dark.name(), "Dark");
}

#[test]
fn theme_mode_is_dark() {
    assert!(ThemeMode::System.is_dark(true));
    assert!(!ThemeMode::System.is_dark(false));
    assert!(!ThemeMode::Light.is_dark(true));
    assert!(ThemeMode::Dark.is_dark(false));
}

#[test]
fn theme_mode_cycles() {
    assert_eq!(ThemeMode::System.next(), ThemeMode::Light);
    assert_eq!(ThemeMode::Light.next(), ThemeMode::Dark);
    assert_eq!(ThemeMode::Dark.next(), ThemeMode::System);
    assert_eq!(ThemeMode::default(), ThemeMode::System);
}

#[test]
fn theme_palettes() {
    let dark = ThemeColors::dark();
    assert_eq!(dark.background, Rgba { r: 0x1e, g: 0x1e, b: 0x1e, a: 0xff });
    assert_eq!(dark.accent, Rgba { r: 0x56, g: 0x9c, b: 0xd6, a: 0xff });
    assert_eq!(dark.selection, Rgba { r: 0x26, g: 0x4f, b: 0x78, a: 0x80 });
    let light = ThemeColors::light();
    assert_eq!(light.background, Rgba { r: 0xff, g: 0xff, b: 0xff, a: 0xff });
    assert_eq!(light.text, Rgba { r: 0x33, g: 0x33, b: 0x33, a: 0xff });
    assert_eq!(ThemeColors::for_mode(ThemeMode::Dark, false), dark);
    assert_eq!(ThemeColors::for_mode(ThemeMode::System, true), dark);
    assert_eq!(ThemeColors::for_mode(ThemeMode::Light, true), light);
    assert_eq!(ThemeColors::for_mode(ThemeMode::System, false), light);
}

#[test]
fn preview_layout_names_and_visibility() {
    assert_eq!(PreviewLayout::Hidden.name(), "Off");
    assert_eq!(PreviewLayout::Tabs.name(), "Tabs");
    assert_eq!(PreviewLayout::Horizontal.name(), "Side by Side");
    assert!(!PreviewLayout::Hidden.is_visible());
    assert!(PreviewLayout::Tabs.is_visible());
    assert!(PreviewLayout::Horizontal.is_visible());
    assert_eq!(PreviewLayout::default(), PreviewLayout::Hidden);
    assert_eq!(EditorTab::default(), EditorTab::Editor);
    assert_eq!(MenuState::default(), MenuState::Closed);
}

#[test]
fn preview_state_follows_markdown() {
    assert_eq!(
        update_preview_state(true, PreviewLayout::Hidden, EditorTab::Preview),
        (PreviewLayout::Tabs, EditorTab::Editor)
    );
    assert_eq!(
        update_preview_state(true, PreviewLayout::Horizontal, EditorTab::Preview),
        (PreviewLayout::Horizontal, EditorTab::Preview)
    );
    assert_eq!(
        update_preview_state(false, PreviewLayout::Tabs, EditorTab::Preview),
        (PreviewLayout::Hidden, EditorTab::Preview)
    );
    assert_eq!(
        update_preview_state(false, PreviewLayout::Hidden, EditorTab::Editor),
        (PreviewLayout::Hidden, EditorTab::Editor)
    );
}

#[test]
fn tab_toggle_switches_panes_and_requests_focus() {
    assert_eq!(
        toggle_preview_tab(PreviewLayout::Tabs, EditorTab::Editor),
        (EditorTab::Preview, false, true)
    );
    assert_eq!(
        toggle_preview_tab(PreviewLayout::Tabs, EditorTab::Preview),
        (EditorTab::Editor, true, false)
    );
    assert_eq!(
        toggle_preview_tab(PreviewLayout::Hidden, EditorTab::Editor),
        (EditorTab::Editor, false, false)
    );
}

#[test]
fn zoom_steps_stay_in_bounds() {
    assert_eq!(zoom_in(DEFAULT_ZOOM_LEVEL), 110);
    assert_eq!(zoom_out(DEFAULT_ZOOM_LEVEL), 90);
    assert_eq!(zoom_in(MAX_ZOOM_LEVEL), MAX_ZOOM_LEVEL);
    assert_eq!(zoom_in(MAX_ZOOM_LEVEL - 5), MAX_ZOOM_LEVEL);
    assert_eq!(zoom_out(MIN_ZOOM_LEVEL), MIN_ZOOM_LEVEL);
    assert_eq!(zoom_out(MIN_ZOOM_LEVEL + 5), MIN_ZOOM_LEVEL);
}

#[test]
fn large_files_need_confirmation() {
    assert!(!needs_large_file_confirm(0));
    assert!(!needs_large_file_confirm(500 * 1024));
    assert!(!needs_large_file_confirm(500 * 1024 + 1023));
    assert!(needs_large_file_confirm(500 * 1024 + 1024));
    assert!(needs_large_file_confirm(10_000_000));
}

#[test]
fn history_records_and_undoes_edits() {
    let mut h = History::new();
    h.save_undo("first");
    h.save_undo("second");
    assert_eq!(h.undo_stack.len(), 2);
    let back = h.undo("second");
    assert_eq!(back.as_deref(), Some("first"));
    let back = h.undo("first");
    assert_eq!(back.as_deref(), Some(""));
    assert_eq!(h.undo("?"), None);
    let fwd = h.redo("");
    assert_eq!(fwd.as_deref(), Some("first"));
    let fwd = h.redo("first");
    assert_eq!(fwd.as_deref(), Some("second"));
    assert_eq!(h.redo("second"), None);
}

#[test]
fn unchanged_document_records_nothing() {
    let mut h = History::new();
    h.save_undo("same");
    h.save_undo("same");
    assert_eq!(h.undo_stack.len(), 1);
}

#[test]
fn an_edit_discards_redo_history() {
    let mut h = History::new();
    h.save_undo("a");
    h.undo("a");
    assert_eq!(h.redo_stack.len(), 1);
    h.save_undo("b");
    assert!(h.redo_stack.is_empty());
    assert_eq!(h.redo("b"), None);
}

#[test]
fn history_is_bounded() {
    let mut h = History::new();
    for i in 0..150 {
        h.save_undo(&format!("v{i}"));
    }
    assert_eq!(h.undo_stack.len(), 100);
    // the oldest snapshots were dropped: the bottom of the stack is v49
    assert_eq!(h.undo_stack[0], "v49");
}

#[test]
fn history_reset_forgets_everything() {
    let mut h = History::new();
    h.save_undo("a");
    h.save_undo("b");
    h.reset("loaded");
    assert!(h.undo_stack.is_empty());
    assert!(h.redo_stack.is_empty());
    h.save_undo("loaded");
    assert!(h.undo_stack.is_empty());
}

#[test]
fn markdown_detection() {
    assert!(is_markdown(Some("Markdown"), None));
    assert!(is_markdown(None, Some("md")));
    assert!(is_markdown(None, Some("MD")));
    assert!(is_markdown(None, Some("Md")));
    assert!(!is_markdown(None, Some("mdx")));
    assert!(!is_markdown(Some("Rust"), Some("rs")));
    assert!(!is_markdown(None, None));
}

#[test]
fn manual_language_selection() {
    assert_eq!(set_manual_language(""), None);
    assert_eq!(set_manual_language("Rust").as_deref(), Some("Rust"));
}

#[test]
fn language_auto_detection() {
    let hl = SyntaxHighlighter::new();
    assert_eq!(auto_detect_language(&hl, Some("rs")).as_deref(), Some("Rust"));
    assert_eq!(auto_detect_language(&hl, Some("md")).as_deref(), Some("Markdown"));
    assert_eq!(auto_detect_language(&hl, Some("nosuchextension")), None);
    assert_eq!(auto_detect_language(&hl, None), None);
}

#[test]
fn default_extensions() {
    assert_eq!(get_default_extension(Some("Markdown")), "md");
    assert_eq!(get_default_extension(Some("Rust")), "rs");
    assert_eq!(get_default_extension(Some("C++")), "cpp");
    assert_eq!(get_default_extension(Some("Shell Script")), "sh");
    assert_eq!(get_default_extension(Some("Objective-C")), "m");
    assert_eq!(get_default_extension(Some("Plain Text")), "txt");
    assert_eq!(get_default_extension(None), "txt");
}

#[test]
fn extension_swap_on_save() {
    assert!(should_swap_extension(Some("txt"), "rs"));
    assert!(!should_swap_extension(Some("txt"), "txt"));
    assert!(!should_swap_extension(Some("rs"), "md"));
    assert!(!should_swap_extension(None, "rs"));
}

#[test]
fn string_equality_compares_contents() {
    assert!(str_eq("abc", "abc"));
    assert!(!str_eq("abc", "abd"));
    assert!(!str_eq("abc", "ab"));
    assert!(str_eq("", ""));
}
