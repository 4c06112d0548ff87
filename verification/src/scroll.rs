//! Scroll/cursor synchronizer: estimates the vertical scroll offset of a
//! character offset from a fixed line-height model, and arms a one-shot flag
//! so the host can tell a programmatic scroll jump from a user-driven one.

use vstd::prelude::*;

use crate::locator::clamped;
use crate::locator::newline_count;

verus! {

/// The scroll offset that places the line holding the (clamped) character
/// offset at the top, in half-pixels: the 0-based line index times the line
/// height of one and a half times the font size.
pub open spec fn scroll_target_spec(text: Seq<char>, offset: int, font_size: int) -> int {
    newline_count(text.take(clamped(text, offset))) * font_size * 3
}

/// The scroll target, saturated at the largest `u64` (reachable only on
/// absurdly long documents or font sizes).
pub open spec fn scroll_target_capped(text: Seq<char>, offset: int, font_size: int) -> int {
    if scroll_target_spec(text, offset, font_size) <= u64::MAX {
        scroll_target_spec(text, offset, font_size)
    } else {
        u64::MAX as int
    }
}

/// Estimates the vertical scroll offset for a character offset in `text`,
/// under a line height of one and a half times `font_size`. The result is in
/// half-pixels (twice the pixel offset), so the model stays exact; it
/// saturates at `u64::MAX` instead of overflowing, and is never negative.
pub fn scroll_target(text: &str, offset: usize, font_size: u32) -> (r: u64)
    ensures
        r == scroll_target_capped(text@, offset as int, font_size as int),
{
    let li = crate::locator::line_index(text, offset);
    let a = (li as u64).checked_mul(font_size as u64);
    match a {
        None => u64::MAX,
        Some(x) => match x.checked_mul(3) {
            None => u64::MAX,
            Some(y) => y,
        },
    }
}

/// One-shot marker for programmatic scroll jumps: the synchronizer arms it
/// when it moves the view itself, and the host consumes it on the very next
/// read to suppress exactly one echoed scroll event.
#[derive(Debug, Clone, Copy, PartialEq, Eq, Structural)]
pub struct ScrollSync {
    pub programmatic: bool,
}

impl ScrollSync {
    /// A fresh synchronizer with no pending programmatic jump.
    pub fn new() -> (s: ScrollSync)
        ensures
            !s.programmatic,
    {
        ScrollSync { programmatic: false }
    }

    /// Marks the next scroll update as programmatic.
    pub fn mark_programmatic(&mut self)
        ensures
            final(self).programmatic,
    {
        self.programmatic = true;
    }

    /// Hands back whether the pending scroll update was programmatic and
    /// clears the flag, so at most one echoed event is ever suppressed per
    /// jump.
    pub fn consume(&mut self) -> (was: bool)
        ensures
            was == old(self).programmatic,
            !final(self).programmatic,
    {
        let was = self.programmatic;
        self.programmatic = false;
        was
    }
}

} // verus!
