//! View-state decisions: preview layout and tab switching, menu state, the
//! zoom level, and the large-file gate. Pure functions from plain values to
//! plain values, driven by the hosting UI.

use vstd::prelude::*;

verus! {

/// Where the Markdown preview is shown, if at all.
#[derive(Clone, Copy, Debug, PartialEq, Eq, Structural)]
pub enum PreviewLayout {
    Hidden,
    Tabs,
    Horizontal,
}

impl Default for PreviewLayout {
    /// The preview starts hidden.
    fn default() -> (r: PreviewLayout)
        ensures
            r == PreviewLayout::Hidden,
    {
        PreviewLayout::Hidden
    }
}

impl PreviewLayout {
    /// The layout's display name.
    pub fn name(&self) -> (r: &'static str)
        ensures
            *self == PreviewLayout::Hidden ==> r@ == "Off"@,
            *self == PreviewLayout::Tabs ==> r@ == "Tabs"@,
            *self == PreviewLayout::Horizontal ==> r@ == "Side by Side"@,
    {
        match self {
            PreviewLayout::Hidden => "Off",
            PreviewLayout::Tabs => "Tabs",
            PreviewLayout::Horizontal => "Side by Side",
        }
    }

    /// Whether the preview is shown in this layout.
    pub fn is_visible(&self) -> (r: bool)
        ensures
            r == (*self != PreviewLayout::Hidden),
    {
        *self != PreviewLayout::Hidden
    }
}

/// Which pane of a tabbed editor/preview pair is active.
#[derive(Clone, Copy, Debug, PartialEq, Eq, Structural)]
pub enum EditorTab {
    Editor,
    Preview,
}

impl Default for EditorTab {
    /// The editor pane starts active.
    fn default() -> (r: EditorTab)
        ensures
            r == EditorTab::Editor,
    {
        EditorTab::Editor
    }
}

/// Which menu dropdown is open, if any.
#[derive(Clone, Copy, Debug, PartialEq, Eq, Structural)]
pub enum MenuState {
    Closed,
    File,
    Edit,
    Format,
    View,
    Help,
}

impl Default for MenuState {
    /// No menu starts open.
    fn default() -> (r: MenuState)
        ensures
            r == MenuState::Closed,
    {
        MenuState::Closed
    }
}

/// The layout and tab after reconciling with whether the document is
/// Markdown: a Markdown document with no visible preview gets the tabbed
/// layout with the editor pane active; a non-Markdown document loses the
/// preview; anything else is unchanged.
pub open spec fn preview_after_update(is_md: bool, layout: PreviewLayout, tab: EditorTab) -> (
    PreviewLayout,
    EditorTab,
) {
    if is_md && layout == PreviewLayout::Hidden {
        (PreviewLayout::Tabs, EditorTab::Editor)
    } else if !is_md && layout != PreviewLayout::Hidden {
        (PreviewLayout::Hidden, tab)
    } else {
        (layout, tab)
    }
}

/// Reconciles the preview layout with whether the document is Markdown: a
/// Markdown document with no visible preview gets the tabbed layout with the
/// editor pane active; a non-Markdown document loses the preview.
pub fn update_preview_state(is_md: bool, layout: PreviewLayout, tab: EditorTab) -> (r: (
    PreviewLayout,
    EditorTab,
))
    ensures
        r == preview_after_update(is_md, layout, tab),
{
    if is_md && !layout.is_visible() {
        (PreviewLayout::Tabs, EditorTab::Editor)
    } else if !is_md && layout.is_visible() {
        (PreviewLayout::Hidden, tab)
    } else {
        (layout, tab)
    }
}

/// Switches between the editor and preview panes when the preview is visible,
/// requesting focus for the newly active pane; a no-op otherwise. The two
/// flags are (editor focus requested, preview focus requested).
pub fn toggle_preview_tab(layout: PreviewLayout, tab: EditorTab) -> (r: (EditorTab, bool, bool))
    ensures
        layout == PreviewLayout::Hidden ==> r == (tab, false, false),
        layout != PreviewLayout::Hidden && tab == EditorTab::Editor ==> r == (
            EditorTab::Preview,
            false,
            true,
        ),
        layout != PreviewLayout::Hidden && tab == EditorTab::Preview ==> r == (
            EditorTab::Editor,
            true,
            false,
        ),
{
    if layout.is_visible() {
        match tab {
            EditorTab::Editor => (EditorTab::Preview, false, true),
            EditorTab::Preview => (EditorTab::Editor, true, false),
        }
    } else {
        (tab, false, false)
    }
}

/// The default zoom level, in percent.
pub const DEFAULT_ZOOM_LEVEL: i16 = 100;

/// The largest zoom level, in percent.
pub const MAX_ZOOM_LEVEL: i16 = 500;

/// The smallest zoom level, in percent.
pub const MIN_ZOOM_LEVEL: i16 = 50;

/// One zoom step in, by ten percent, never past `MAX_ZOOM_LEVEL`.
pub fn zoom_in(z: i16) -> (r: i16)
    ensures
        z < MAX_ZOOM_LEVEL && z + 10 <= MAX_ZOOM_LEVEL ==> r == z + 10,
        z < MAX_ZOOM_LEVEL && z + 10 > MAX_ZOOM_LEVEL ==> r == MAX_ZOOM_LEVEL,
        z >= MAX_ZOOM_LEVEL ==> r == z,
{
    if z < MAX_ZOOM_LEVEL {
        let w = z + 10;
        if w > MAX_ZOOM_LEVEL {
            MAX_ZOOM_LEVEL
        } else {
            w
        }
    } else {
        z
    }
}

/// One zoom step out, by ten percent, never past `MIN_ZOOM_LEVEL`.
pub fn zoom_out(z: i16) -> (r: i16)
    ensures
        z > MIN_ZOOM_LEVEL && z - 10 >= MIN_ZOOM_LEVEL ==> r == z - 10,
        z > MIN_ZOOM_LEVEL && z - 10 < MIN_ZOOM_LEVEL ==> r == MIN_ZOOM_LEVEL,
        z <= MIN_ZOOM_LEVEL ==> r == z,
{
    if z > MIN_ZOOM_LEVEL {
        let w = z - 10;
        if w < MIN_ZOOM_LEVEL {
            MIN_ZOOM_LEVEL
        } else {
            w
        }
    } else {
        z
    }
}

/// Whether opening a file of this size must first be confirmed: files over
/// 500 kibibytes prompt before loading.
pub fn needs_large_file_confirm(size_bytes: u64) -> (r: bool)
    ensures
        r == (size_bytes / 1024 > 500),
{
    size_bytes / 1024 > 500
}

} // verus!
