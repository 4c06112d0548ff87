//! The editor's session state: one explicit value holding the document, its
//! history, language selection, search state, cursor and scroll — every
//! decision the editor makes between frames, as pure transitions on plain
//! values. The hosting UI owns a session and drives it; all I/O stays with
//! the host.

use vstd::prelude::*;

use crate::highlight::SyntaxHighlighter;
use crate::highlight::extension_known;
use crate::highlight::grammar_known;
use crate::history::History;
use crate::history::same_history;
use crate::language::auto_detect_language;
use crate::language::is_markdown;
use crate::language::is_md_extension;
use crate::locator::cap_usize;
use crate::locator::col_of;
use crate::locator::line_of;
use crate::locator::locate;
use crate::scroll::ScrollSync;
use crate::scroll::scroll_target;
use crate::scroll::scroll_target_capped;
use crate::search::FLASH_MAX;
use crate::search::SearchState;
use crate::search::next_index;
use crate::search::prev_index;
use crate::search::search;
use crate::view_state::EditorTab;
use crate::view_state::PreviewLayout;
use crate::view_state::preview_after_update;
use crate::view_state::update_preview_state;

verus! {

/// Everything the editor remembers between frames, except what only the UI
/// toolkit can know (window, fonts, dialogs).
#[derive(Debug)]
pub struct EditorSession {
    pub text: String,
    pub history: History,
    pub modified: bool,
    pub current_syntax: Option<String>,
    pub auto_detect: bool,
    pub preview_layout: PreviewLayout,
    pub active_tab: EditorTab,
    pub search_query: String,
    pub search: SearchState,
    pub cur_line: usize,
    pub cur_col: usize,
    pub editor_scroll: u64,
    pub sync: ScrollSync,
}

impl EditorSession {
    /// The search state is well formed.
    pub open spec fn wf(self) -> bool {
        self.search.wf()
    }

    /// The document, its history and its language selection are the same in
    /// both sessions.
    pub open spec fn same_document(a: EditorSession, b: EditorSession) -> bool {
        &&& a.text == b.text
        &&& a.history == b.history
        &&& a.modified == b.modified
        &&& a.current_syntax == b.current_syntax
        &&& a.auto_detect == b.auto_detect
    }

    /// The preview layout, active tab and cursor are the same in both
    /// sessions.
    pub open spec fn same_view(a: EditorSession, b: EditorSession) -> bool {
        &&& a.preview_layout == b.preview_layout
        &&& a.active_tab == b.active_tab
        &&& a.cur_line == b.cur_line
        &&& a.cur_col == b.cur_col
    }

    /// The search query and state are the same in both sessions.
    pub open spec fn same_search(a: EditorSession, b: EditorSession) -> bool {
        &&& a.search_query == b.search_query
        &&& a.search == b.search
    }

    /// The scroll offset and the programmatic-scroll flag are the same in
    /// both sessions.
    pub open spec fn same_scroll(a: EditorSession, b: EditorSession) -> bool {
        &&& a.editor_scroll == b.editor_scroll
        &&& a.sync == b.sync
    }

    /// A session's state over an empty, unmodified, plain-text document with
    /// no search and no scroll.
    pub open spec fn is_blank(self) -> bool {
        &&& self.text@ == Seq::<char>::empty()
        &&& self.history.undo_stack@.len() == 0
        &&& self.history.redo_stack@.len() == 0
        &&& self.history.last_saved@ == Seq::<char>::empty()
        &&& !self.modified
        &&& self.current_syntax is None
        &&& self.auto_detect
        &&& self.preview_layout == PreviewLayout::Hidden
        &&& self.search_query@ == Seq::<char>::empty()
        &&& self.search.hits@.len() == 0
        &&& self.search.current == 0
        &&& !self.search.active
        &&& self.editor_scroll == 0
    }

    /// A fresh session: blank document, editor pane active, cursor at (1, 1),
    /// no pending programmatic scroll.
    pub fn new() -> (s: EditorSession)
        ensures
            s.is_blank(),
            s.active_tab == EditorTab::Editor,
            s.cur_line == 1,
            s.cur_col == 1,
            !s.sync.programmatic,
            s.wf(),
    {
        EditorSession {
            text: String::new(),
            history: History::new(),
            modified: false,
            current_syntax: None,
            auto_detect: true,
            preview_layout: PreviewLayout::Hidden,
            active_tab: EditorTab::Editor,
            search_query: String::new(),
            search: SearchState { hits: Vec::new(), current: 0, active: false },
            cur_line: 1,
            cur_col: 1,
            editor_scroll: 0,
            sync: ScrollSync::new(),
        }
    }

    /// Starts a new, empty document: text, history, language and search are
    /// all cleared; the active tab, cursor and scroll flag stay as they were.
    pub fn new_document(&mut self)
        ensures
            final(self).is_blank(),
            final(self).wf(),
            final(self).active_tab == old(self).active_tab,
            final(self).cur_line == old(self).cur_line,
            final(self).cur_col == old(self).cur_col,
            final(self).sync == old(self).sync,
    {
        self.text = String::new();
        self.history.reset("");
        proof {
            reveal_strlit("");
            assert(""@ =~= Seq::<char>::empty());
        }
        self.modified = false;
        self.current_syntax = None;
        self.auto_detect = true;
        self.preview_layout = PreviewLayout::Hidden;
        self.search_query = String::new();
        self.search = SearchState { hits: Vec::new(), current: 0, active: false };
        self.editor_scroll = 0;
    }

    /// Loads a document: the text and history snapshot become `content`, the
    /// language is re-detected from the file extension, search and scroll are
    /// cleared, the preview follows whether the document is Markdown, and the
    /// editor pane becomes active.
    pub fn load_document(&mut self, content: &str, hl: &SyntaxHighlighter, ext: Option<&str>)
        ensures
            final(self).wf(),
            final(self).text@ == content@,
            final(self).history.undo_stack@.len() == 0,
            final(self).history.redo_stack@.len() == 0,
            final(self).history.last_saved@ == content@,
            !final(self).modified,
            final(self).auto_detect,
            final(self).current_syntax is Some <==> (ext matches Some(e) && extension_known(e@)),
            final(self).current_syntax matches Some(s) ==> grammar_known(s@),
            final(self).search_query@ == Seq::<char>::empty(),
            final(self).search.hits@.len() == 0,
            final(self).search.current == 0,
            !final(self).search.active,
            final(self).editor_scroll == 0,
            final(self).active_tab == EditorTab::Editor,
            ({
                let md = (final(self).current_syntax matches Some(s) && s@ == "Markdown"@) || (
                ext matches Some(e) && is_md_extension(e@));
                final(self).preview_layout == preview_after_update(
                    md,
                    old(self).preview_layout,
                    old(self).active_tab,
                ).0
            }),
            final(self).cur_line == old(self).cur_line,
            final(self).cur_col == old(self).cur_col,
            final(self).sync == old(self).sync,
    {
        self.text = String::from_str(content);
        self.history.reset(content);
        self.modified = false;
        self.auto_detect = true;
        self.current_syntax = auto_detect_language(hl, ext);
        self.editor_scroll = 0;
        self.search_query = String::new();
        self.search = SearchState { hits: Vec::new(), current: 0, active: false };
        let md = match &self.current_syntax {
            Some(s) => is_markdown(Some(s.as_str()), ext),
            None => is_markdown(None, ext),
        };
        let (layout, _tab) = update_preview_state(md, self.preview_layout, self.active_tab);
        self.preview_layout = layout;
        self.active_tab = EditorTab::Editor;
    }

    /// Records an edit of the document: the history takes a snapshot (as
    /// `History::save_undo` does) and the document counts as modified.
    pub fn record_edit(&mut self)
        ensures
            final(self).modified,
            final(self).text == old(self).text,
            final(self).current_syntax == old(self).current_syntax,
            final(self).auto_detect == old(self).auto_detect,
            Self::same_view(*old(self), *final(self)),
            Self::same_search(*old(self), *final(self)),
            Self::same_scroll(*old(self), *final(self)),
            old(self).history.last_saved@ == old(self).text@ ==> same_history(
                final(self).history,
                old(self).history,
            ),
            old(self).history.last_saved@ != old(self).text@ ==> {
                &&& final(self).history.last_saved@ == old(self).text@
                &&& final(self).history.redo_stack@.len() == 0
                &&& final(self).history.undo_stack@ == if old(self).history.undo_stack@.len() < crate::history::MAX_UNDO {
                    old(self).history.undo_stack@.push(old(self).history.last_saved)
                } else {
                    old(self).history.undo_stack@.push(old(self).history.last_saved).drop_first()
                }
            },
    {
        let snapshot = self.text.clone();
        self.history.save_undo(snapshot.as_str());
        self.modified = true;
    }

    /// Steps the document back one history snapshot, if there is one; the
    /// current document moves onto the redo stack. The modified flag is left
    /// for the host, which alone can compare against the file on disk.
    pub fn undo_edit(&mut self)
        ensures
            final(self).modified == old(self).modified,
            final(self).current_syntax == old(self).current_syntax,
            final(self).auto_detect == old(self).auto_detect,
            Self::same_view(*old(self), *final(self)),
            Self::same_search(*old(self), *final(self)),
            Self::same_scroll(*old(self), *final(self)),
            old(self).history.undo_stack@.len() == 0 ==> final(self).text == old(self).text
                && same_history(final(self).history, old(self).history),
            old(self).history.undo_stack@.len() > 0 ==> {
                &&& final(self).text == old(self).history.undo_stack@.last()
                &&& final(self).history.last_saved == old(self).history.undo_stack@.last()
                &&& final(self).history.undo_stack@ == old(self).history.undo_stack@.drop_last()
                &&& final(self).history.redo_stack@.len() == old(self).history.redo_stack@.len()
                    + 1
                &&& final(self).history.redo_stack@.last()@ == old(self).text@
            },
    {
        let now = self.text.clone();
        match self.history.undo(now.as_str()) {
            Some(p) => {
                self.text = p;
            },
            None => {},
        }
    }

    /// Steps the document forward one history snapshot, if there is one; the
    /// current document moves back onto the undo stack.
    pub fn redo_edit(&mut self)
        ensures
            final(self).modified == old(self).modified,
            final(self).current_syntax == old(self).current_syntax,
            final(self).auto_detect == old(self).auto_detect,
            Self::same_view(*old(self), *final(self)),
            Self::same_search(*old(self), *final(self)),
            Self::same_scroll(*old(self), *final(self)),
            old(self).history.redo_stack@.len() == 0 ==> final(self).text == old(self).text
                && same_history(final(self).history, old(self).history),
            old(self).history.redo_stack@.len() > 0 ==> {
                &&& final(self).text == old(self).history.redo_stack@.last()
                &&& final(self).history.last_saved == old(self).history.redo_stack@.last()
                &&& final(self).history.redo_stack@ == old(self).history.redo_stack@.drop_last()
                &&& final(self).history.undo_stack@.len() == old(self).history.undo_stack@.len()
                    + 1
                &&& final(self).history.undo_stack@.last()@ == old(self).text@
            },
    {
        let now = self.text.clone();
        match self.history.redo(now.as_str()) {
            Some(p) => {
                self.text = p;
            },
            None => {},
        }
    }

    /// Moves the cursor display to the line and column of a character offset
    /// in the document (clamped to its end).
    pub fn update_cursor(&mut self, offset: usize)
        ensures
            Self::same_document(*old(self), *final(self)),
            Self::same_search(*old(self), *final(self)),
            Self::same_scroll(*old(self), *final(self)),
            final(self).preview_layout == old(self).preview_layout,
            final(self).active_tab == old(self).active_tab,
            final(self).cur_line == cap_usize(line_of(old(self).text@, offset as int)),
            final(self).cur_col == cap_usize(col_of(old(self).text@, offset as int)),
    {
        let r = locate(self.text.as_str(), offset);
        self.cur_line = r.0;
        self.cur_col = r.1;
    }

    /// Scrolls the view to the current search hit, arming the programmatic
    /// flag; a no-op when there are no hits.
    pub fn scroll_to_current(&mut self, font_size: u32)
        requires
            old(self).wf(),
        ensures
            final(self).wf(),
            Self::same_document(*old(self), *final(self)),
            Self::same_search(*old(self), *final(self)),
            final(self).preview_layout == old(self).preview_layout,
            final(self).active_tab == old(self).active_tab,
            final(self).cur_line == old(self).cur_line,
            final(self).cur_col == old(self).cur_col,
            old(self).search.hits@.len() == 0 ==> Self::same_scroll(*old(self), *final(self)),
            old(self).search.hits@.len() > 0 ==> final(self).editor_scroll
                == scroll_target_capped(
                old(self).text@,
                old(self).search.hits@[old(self).search.current as int].offset as int,
                font_size as int,
            ) && final(self).sync.programmatic,
    {
        if self.search.hits.len() == 0 {
            return ;
        }
        let cur = self.search.current;
        let off = self.search.hits[cur].offset;
        self.editor_scroll = scroll_target(self.text.as_str(), off, font_size);
        self.sync.mark_programmatic();
    }

    /// Runs the search for the current query against the current document;
    /// on a non-empty result the view scrolls to the first hit.
    pub fn run_search(&mut self, font_size: u32)
        ensures
            final(self).wf(),
            final(self).search.is_search_result(old(self).text@, old(self).search_query@),
            Self::same_document(*old(self), *final(self)),
            final(self).search_query == old(self).search_query,
            final(self).preview_layout == old(self).preview_layout,
            final(self).active_tab == old(self).active_tab,
            final(self).cur_line == old(self).cur_line,
            final(self).cur_col == old(self).cur_col,
            final(self).search.hits@.len() == 0 ==> Self::same_scroll(*old(self), *final(self)),
            final(self).search.hits@.len() > 0 ==> final(self).editor_scroll
                == scroll_target_capped(
                old(self).text@,
                final(self).search.hits@[0].offset as int,
                font_size as int,
            ) && final(self).sync.programmatic,
    {
        let st = search(self.text.as_str(), self.search_query.as_str());
        self.search = st;
        if self.search.hits.len() > 0 {
            self.scroll_to_current(font_size);
        }
    }

    /// Moves to the next search hit: advances cyclically, relights its flash,
    /// and scrolls the view to it; a no-op without hits.
    pub fn next_result(&mut self, font_size: u32)
        requires
            old(self).wf(),
        ensures
            final(self).wf(),
            Self::same_document(*old(self), *final(self)),
            final(self).search_query == old(self).search_query,
            final(self).preview_layout == old(self).preview_layout,
            final(self).active_tab == old(self).active_tab,
            final(self).cur_line == old(self).cur_line,
            final(self).cur_col == old(self).cur_col,
            final(self).search.hits@.len() == old(self).search.hits@.len(),
            final(self).search.active == old(self).search.active,
            forall|k: int|
                0 <= k < old(self).search.hits@.len() ==> (#[trigger] final(self).search.hits@[k]).offset == old(self).search.hits@[k].offset,
            old(self).search.hits@.len() == 0 ==> Self::same_search(*old(self), *final(self))
                && Self::same_scroll(*old(self), *final(self)),
            old(self).search.hits@.len() > 0 ==> {
                &&& final(self).search.current == next_index(
                    old(self).search.current as int,
                    old(self).search.hits@.len() as int,
                )
                &&& final(self).search.hits@[final(self).search.current as int].flash == FLASH_MAX
                &&& final(self).editor_scroll == scroll_target_capped(
                    old(self).text@,
                    old(self).search.hits@[final(self).search.current as int].offset as int,
                    font_size as int,
                )
                &&& final(self).sync.programmatic
            },
    {
        if self.search.hits.len() == 0 {
            return ;
        }
        self.search.next();
        self.scroll_to_current(font_size);
    }

    /// Moves to the previous search hit: steps back cyclically, relights its
    /// flash, and scrolls the view to it; a no-op without hits.
    pub fn prev_result(&mut self, font_size: u32)
        requires
            old(self).wf(),
        ensures
            final(self).wf(),
            Self::same_document(*old(self), *final(self)),
            final(self).search_query == old(self).search_query,
            final(self).preview_layout == old(self).preview_layout,
            final(self).active_tab == old(self).active_tab,
            final(self).cur_line == old(self).cur_line,
            final(self).cur_col == old(self).cur_col,
            final(self).search.hits@.len() == old(self).search.hits@.len(),
            final(self).search.active == old(self).search.active,
            forall|k: int|
                0 <= k < old(self).search.hits@.len() ==> (#[trigger] final(self).search.hits@[k]).offset == old(self).search.hits@[k].offset,
            old(self).search.hits@.len() == 0 ==> Self::same_search(*old(self), *final(self))
                && Self::same_scroll(*old(self), *final(self)),
            old(self).search.hits@.len() > 0 ==> {
                &&& final(self).search.current == prev_index(
                    old(self).search.current as int,
                    old(self).search.hits@.len() as int,
                )
                &&& final(self).search.hits@[final(self).search.current as int].flash == FLASH_MAX
                &&& final(self).editor_scroll == scroll_target_capped(
                    old(self).text@,
                    old(self).search.hits@[final(self).search.current as int].offset as int,
                    font_size as int,
                )
                &&& final(self).sync.programmatic
            },
    {
        if self.search.hits.len() == 0 {
            return ;
        }
        self.search.prev();
        self.scroll_to_current(font_size);
    }

    /// Closes the search bar: hands back the offset of the current hit (for
    /// the host to place the cursor there), if any, and deactivates the
    /// search.
    pub fn close_search(&mut self) -> (r: Option<usize>)
        requires
            old(self).wf(),
        ensures
            final(self).wf(),
            Self::same_document(*old(self), *final(self)),
            Self::same_scroll(*old(self), *final(self)),
            final(self).search_query == old(self).search_query,
            final(self).preview_layout == old(self).preview_layout,
            final(self).active_tab == old(self).active_tab,
            final(self).cur_line == old(self).cur_line,
            final(self).cur_col == old(self).cur_col,
            final(self).search.hits@ == old(self).search.hits@,
            final(self).search.current == old(self).search.current,
            !final(self).search.active,
            old(self).search.hits@.len() > 0 ==> (r matches Some(off) && off == old(self).search.hits@[old(self).search.current as int].offset),
            old(self).search.hits@.len() == 0 ==> r is None,
    {
        let r = if self.search.hits.len() > 0 {
            Some(self.search.hits[self.search.current].offset)
        } else {
            None
        };
        self.search.active = false;
        r
    }
}

} // verus!
