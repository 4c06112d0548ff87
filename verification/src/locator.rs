//! Line/column locator: maps a character offset in a document to a 1-based
//! (line, column) pair. Out-of-range offsets clamp to the document's character
//! length instead of failing.

use vstd::prelude::*;

verus! {

/// Number of newline characters in `s`.
pub open spec fn newline_count(s: Seq<char>) -> nat
    decreases s.len(),
{
    if s.len() == 0 {
        0
    } else {
        newline_count(s.drop_last()) + if s.last() == '\n' {
            1nat
        } else {
            0nat
        }
    }
}

/// Character index at which the line containing offset `off` begins: the
/// position just after the last `'\n'` strictly before `off`, or 0 when no
/// newline precedes it.
pub open spec fn line_start(s: Seq<char>, off: int) -> int
    decreases off,
{
    if off <= 0 {
        0
    } else if s[off - 1] == '\n' {
        off
    } else {
        line_start(s, off - 1)
    }
}

/// Offset clamped into the valid range of character indices of `s`.
pub open spec fn clamped(s: Seq<char>, off: int) -> int {
    if off <= s.len() {
        off
    } else {
        s.len() as int
    }
}

/// 1-based line number of the clamped offset: newlines strictly before it,
/// plus one.
pub open spec fn line_of(s: Seq<char>, off: int) -> int {
    newline_count(s.take(clamped(s, off))) + 1int
}

/// 1-based column number of the clamped offset: characters since the start of
/// its line, plus one.
pub open spec fn col_of(s: Seq<char>, off: int) -> int {
    clamped(s, off) - line_start(s, clamped(s, off)) + 1
}

proof fn lemma_newline_count_step(s: Seq<char>, i: int)
    requires
        0 <= i < s.len(),
    ensures
        newline_count(s.take(i + 1)) == newline_count(s.take(i)) + if s[i] == '\n' {
            1int
        } else {
            0int
        },
{
    let t = s.take(i + 1);
    assert(t.drop_last() =~= s.take(i));
    assert(t.last() == s[i]);
}

proof fn lemma_newline_count_le(s: Seq<char>)
    ensures
        newline_count(s) <= s.len(),
    decreases s.len(),
{
    if s.len() > 0 {
        lemma_newline_count_le(s.drop_last());
    }
}

proof fn lemma_line_start_bounds(s: Seq<char>, off: int)
    requires
        0 <= off,
    ensures
        0 <= line_start(s, off) <= off,
    decreases off,
{
    if off > 0 && s[off - 1] != '\n' {
        lemma_line_start_bounds(s, off - 1);
    }
}

/// A count capped at the largest value a `usize` holds: line and column
/// numbers saturate there rather than overflow (reachable only on a text of
/// `usize::MAX` characters).
pub open spec fn cap_usize(v: int) -> int {
    if v <= usize::MAX {
        v
    } else {
        usize::MAX as int
    }
}

/// Maps a character offset into `text` to its 1-based (line, column) pair.
/// Offsets beyond the end of the text are clamped to the end; an empty
/// document yields (1, 1).
pub fn locate(text: &str, offset: usize) -> (r: (usize, usize))
    ensures
        r.0 == cap_usize(line_of(text@, offset as int)),
        r.1 == cap_usize(col_of(text@, offset as int)),
{
    let n = text.unicode_len();
    let end = if offset < n {
        offset
    } else {
        n
    };
    let mut count: usize = 0;
    let mut ls: usize = 0;
    let mut i: usize = 0;
    proof {
        assert(text@.take(0) =~= Seq::<char>::empty());
    }
    while i < end
        invariant
            0 <= i <= end,
            end == clamped(text@, offset as int),
            end <= text@.len(),
            count == newline_count(text@.take(i as int)),
            ls == line_start(text@, i as int),
        decreases end - i,
    {
        proof {
            lemma_newline_count_step(text@, i as int);
            lemma_newline_count_le(text@.take(i as int));
            lemma_line_start_bounds(text@, i as int);
        }
        let c = text.get_char(i);
        if c == '\n' {
            count = count + 1;
            ls = i + 1;
        }
        i = i + 1;
    }
    proof {
        lemma_line_start_bounds(text@, end as int);
        lemma_newline_count_le(text@.take(end as int));
    }
    let line = count.saturating_add(1);
    let col = (end - ls).saturating_add(1);
    (line, col)
}

/// 0-based index of the line containing the (clamped) offset: the number of
/// newline characters strictly before it.
pub fn line_index(text: &str, offset: usize) -> (r: usize)
    ensures
        r == newline_count(text@.take(clamped(text@, offset as int))),
{
    let n = text.unicode_len();
    let end = if offset < n {
        offset
    } else {
        n
    };
    let mut count: usize = 0;
    let mut i: usize = 0;
    proof {
        assert(text@.take(0) =~= Seq::<char>::empty());
    }
    while i < end
        invariant
            0 <= i <= end,
            end == clamped(text@, offset as int),
            end <= text@.len(),
            count == newline_count(text@.take(i as int)),
        decreases end - i,
    {
        proof {
            lemma_newline_count_step(text@, i as int);
            lemma_newline_count_le(text@.take(i as int));
        }
        let c = text.get_char(i);
        if c == '\n' {
            count = count + 1;
        }
        i = i + 1;
    }
    count
}

} // verus!
