//! Case-insensitive plain-text search: finds every (possibly overlapping)
//! occurrence of a query in a document, keeps an ordered hit list with cyclic
//! next/previous navigation, and ages a transient flash highlight per hit.

use vstd::prelude::*;

verus! {

/// Full flash intensity, in thousandths (1000 stands for 1.0).
pub const FLASH_MAX: u32 = 1000;

/// Largest amount of flash intensity a single decay tick may remove, in
/// thousandths: a stalled frame cannot make the flash jump.
pub const MAX_DECAY_STEP: u32 = 100;

/// Result of case folding a character, as `char::to_lowercase` folds it
/// (its first resulting character): a fixed function of the character alone.
pub uninterp spec fn fold_char(c: char) -> char;

/// A sequence folded character by character.
pub open spec fn folded(s: Seq<char>) -> Seq<char> {
    s.map_values(|c: char| fold_char(c))
}

/// The query matches the text at offset `i`: both folded character by
/// character, the query is the slice of the text starting at `i`.
pub open spec fn match_at(text: Seq<char>, query: Seq<char>, i: int) -> bool {
    &&& 0 <= i
    &&& i + query.len() <= text.len()
    &&& folded(text).subrange(i, i + query.len() as int) == folded(query)
}

/// One search hit: the character offset where the query matches, and the
/// current flash highlight intensity in thousandths (0 ..= `FLASH_MAX`).
#[derive(Clone, Copy, Debug, PartialEq, Eq, Structural)]
pub struct SearchHit {
    pub offset: usize,
    pub flash: u32,
}

/// The state of one search: hits ordered by ascending offset, the index of
/// the current hit, and whether the search UI is active (owned by the host;
/// carried here untouched by navigation and decay).
#[derive(Debug)]
pub struct SearchState {
    pub hits: Vec<SearchHit>,
    pub current: usize,
    pub active: bool,
}

/// Index reached from `i` by one forward step through `n` hits, wrapping to 0
/// past the end.
pub open spec fn next_index(i: int, n: int) -> int {
    if i + 1 == n {
        0
    } else {
        i + 1
    }
}

/// Index reached from `i` by one backward step through `n` hits, wrapping to
/// `n - 1` from 0.
pub open spec fn prev_index(i: int, n: int) -> int {
    if i == 0 {
        n - 1
    } else {
        i - 1
    }
}

/// The decay applied per tick: the elapsed amount, clamped to
/// `MAX_DECAY_STEP`.
pub open spec fn decay_step(dt: int) -> int {
    if dt < MAX_DECAY_STEP {
        dt
    } else {
        MAX_DECAY_STEP as int
    }
}

/// A flash intensity after one decay tick: reduced by the clamped step,
/// floored at zero.
pub open spec fn decayed(f: int, dt: int) -> int {
    if f - decay_step(dt) >= 0 {
        f - decay_step(dt)
    } else {
        0
    }
}

/// Some hit in `hits` sits at offset `off`.
pub open spec fn has_offset(hits: Seq<SearchHit>, off: int) -> bool {
    exists|k: int| 0 <= k < hits.len() && (#[trigger] hits[k]).offset == off
}

impl SearchState {
    /// The current index is a valid position in the hit list, or 0 when the
    /// list is empty.
    pub open spec fn wf(self) -> bool {
        if self.hits@.len() == 0 {
            self.current == 0
        } else {
            self.current < self.hits@.len()
        }
    }

    /// The hit list of a fresh search against `text` and `query`: exactly the
    /// match offsets, in ascending order, the first hit flashing at full
    /// intensity.
    pub open spec fn is_search_result(self, text: Seq<char>, query: Seq<char>) -> bool {
        &&& self.wf()
        &&& self.current == 0
        &&& self.active == (query.len() > 0)
        &&& query.len() == 0 ==> self.hits@.len() == 0
        &&& forall|k: int|
            0 <= k < self.hits@.len() ==> match_at(text, query, (#[trigger] self.hits@[k]).offset as int)
        &&& query.len() > 0 ==> forall|off: int| match_at(text, query, off) ==> has_offset(self.hits@, off)
        &&& forall|k1: int, k2: int|
            0 <= k1 < k2 < self.hits@.len() ==> (#[trigger] self.hits@[k1]).offset < (
            #[trigger] self.hits@[k2]).offset
        &&& self.hits@.len() > 0 ==> self.hits@[0].flash == FLASH_MAX
        &&& forall|k: int| 1 <= k < self.hits@.len() ==> (#[trigger] self.hits@[k]).flash == 0
    }
}

/// Relies on `char::to_lowercase`: its result depends on the character alone;
/// this takes its first character (the whole folding, for every character the
/// search cares to distinguish). It never panics.
#[verifier::external_body]
fn lower_first(c: char) -> (r: char)
    ensures
        r == fold_char(c),
{
    c.to_lowercase().next().unwrap_or(c)
}

/// Folds every character of `s` through the case fold.
fn fold_str(s: &str) -> (v: Vec<char>)
    ensures
        v@ == folded(s@),
{
    let n = s.unicode_len();
    let mut v: Vec<char> = Vec::new();
    let mut i: usize = 0;
    while i < n
        invariant
            0 <= i <= n,
            n == s@.len(),
            v@.len() == i,
            forall|k: int| 0 <= k < i ==> v@[k] == fold_char(s@[k]),
        decreases n - i,
    {
        let c = s.get_char(i);
        v.push(lower_first(c));
        i = i + 1;
    }
    proof {
        assert(v@ =~= folded(s@));
    }
    v
}

/// True iff the folded query `qf` is the slice of the folded text `tf`
/// starting at `i`.
fn is_match(tf: &Vec<char>, qf: &Vec<char>, i: usize) -> (r: bool)
    requires
        i + qf@.len() <= tf@.len(),
    ensures
        r == (tf@.subrange(i as int, i + qf@.len() as int) == qf@),
{
    let n = tf.len();
    let m = qf.len();
    let mut j: usize = 0;
    while j < m
        invariant
            0 <= j <= m,
            m == qf@.len(),
            n == tf@.len(),
            i + m <= n,
            forall|k: int| 0 <= k < j ==> tf@[i + k] == qf@[k],
        decreases m - j,
    {
        if tf[i + j] != qf[j] {
            proof {
                let sub = tf@.subrange(i as int, i + qf@.len() as int);
                assert(sub[j as int] != qf@[j as int]);
            }
            return false;
        }
        j = j + 1;
    }
    proof {
        assert(tf@.subrange(i as int, i + qf@.len() as int) =~= qf@);
    }
    true
}

/// Searches `text` for every occurrence of `query`, case-insensitively and
/// allowing overlaps: after a match at offset `i` the scan resumes at `i + 1`.
/// An empty query yields an empty hit list. On a non-empty result the first
/// hit is current and flashes at full intensity.
pub fn search(text: &str, query: &str) -> (r: SearchState)
    ensures
        r.is_search_result(text@, query@),
{
    let tf = fold_str(text);
    let qf = fold_str(query);
    let n = tf.len();
    let m = qf.len();
    let mut hits: Vec<SearchHit> = Vec::new();
    if m == 0 || m > n {
        proof {
            assert(forall|off: int| match_at(text@, query@, off) ==> off + m <= n);
        }
        return SearchState { hits, current: 0, active: m > 0 };
    }
    let mut i: usize = 0;
    while i <= n - m
        invariant
            0 <= i <= n - m + 1,
            0 < m <= n,
            n == text@.len(),
            m == query@.len(),
            tf@ == folded(text@),
            qf@ == folded(query@),
            forall|k: int|
                0 <= k < hits@.len() ==> match_at(text@, query@, (#[trigger] hits@[k]).offset as int),
            forall|off: int| 0 <= off < i && match_at(text@, query@, off) ==> has_offset(hits@, off),
            forall|k: int| 0 <= k < hits@.len() ==> (#[trigger] hits@[k]).offset < i,
            forall|k1: int, k2: int|
                0 <= k1 < k2 < hits@.len() ==> (#[trigger] hits@[k1]).offset < (
                #[trigger] hits@[k2]).offset,
            hits@.len() > 0 ==> hits@[0].flash == FLASH_MAX,
            forall|k: int| 1 <= k < hits@.len() ==> (#[trigger] hits@[k]).flash == 0,
        decreases n - i,
    {
        let matched = is_match(&tf, &qf, i);
        if matched {
            let f = if hits.len() == 0 {
                FLASH_MAX
            } else {
                0
            };
            let ghost old_hits = hits@;
            hits.push(SearchHit { offset: i, flash: f });
            proof {
                assert(forall|k: int| 0 <= k < old_hits.len() ==> hits@[k] == old_hits[k]);
                assert(hits@[old_hits.len() as int].offset == i as int);
                assert(has_offset(hits@, i as int));
                assert forall|off: int|
                    0 <= off < i && match_at(text@, query@, off) implies has_offset(
                    hits@,
                    off,
                ) by {
                    assert(has_offset(old_hits, off));
                    let k = choose|k: int|
                        0 <= k < old_hits.len() && (#[trigger] old_hits[k]).offset == off;
                    assert(hits@[k].offset == off);
                }
            }
        }
        i = i + 1;
    }
    proof {
        assert(forall|off: int| match_at(text@, query@, off) ==> 0 <= off <= n - m);
    }
    SearchState { hits, current: 0, active: true }
}

impl SearchState {
    /// Advances the current hit one step forward, wrapping past the end, and
    /// relights its flash; a no-op on an empty hit list.
    pub fn next(&mut self)
        requires
            old(self).wf(),
        ensures
            final(self).wf(),
            final(self).hits@.len() == old(self).hits@.len(),
            final(self).active == old(self).active,
            forall|k: int|
                0 <= k < old(self).hits@.len() ==> (#[trigger] final(self).hits@[k]).offset == old(self).hits@[k].offset,
            old(self).hits@.len() == 0 ==> final(self).hits@ == old(self).hits@ && final(self).current == old(self).current,
            old(self).hits@.len() > 0 ==> final(self).current == next_index(
                old(self).current as int,
                old(self).hits@.len() as int,
            ),
            old(self).hits@.len() > 0 ==> final(self).hits@[final(self).current as int].flash
                == FLASH_MAX,
            forall|k: int|
                0 <= k < old(self).hits@.len() && k != final(self).current ==> (#[trigger] final(self).hits@[k]).flash == old(self).hits@[k].flash,
    {
        let n = self.hits.len();
        if n == 0 {
            return ;
        }
        self.current = if self.current + 1 < n {
            self.current + 1
        } else {
            0
        };
        self.relight_current();
    }

    /// Moves the current hit one step backward, wrapping to the last hit from
    /// the first, and relights its flash; a no-op on an empty hit list.
    pub fn prev(&mut self)
        requires
            old(self).wf(),
        ensures
            final(self).wf(),
            final(self).hits@.len() == old(self).hits@.len(),
            final(self).active == old(self).active,
            forall|k: int|
                0 <= k < old(self).hits@.len() ==> (#[trigger] final(self).hits@[k]).offset == old(self).hits@[k].offset,
            old(self).hits@.len() == 0 ==> final(self).hits@ == old(self).hits@ && final(self).current == old(self).current,
            old(self).hits@.len() > 0 ==> final(self).current == prev_index(
                old(self).current as int,
                old(self).hits@.len() as int,
            ),
            old(self).hits@.len() > 0 ==> final(self).hits@[final(self).current as int].flash
                == FLASH_MAX,
            forall|k: int|
                0 <= k < old(self).hits@.len() && k != final(self).current ==> (#[trigger] final(self).hits@[k]).flash == old(self).hits@[k].flash,
    {
        let n = self.hits.len();
        if n == 0 {
            return ;
        }
        self.current = if self.current == 0 {
            n - 1
        } else {
            self.current - 1
        };
        self.relight_current();
    }

    /// Resets the current hit's flash intensity to full; a no-op on an empty
    /// hit list.
    pub fn flash_current(&mut self)
        requires
            old(self).wf(),
        ensures
            final(self).wf(),
            final(self).current == old(self).current,
            final(self).active == old(self).active,
            final(self).hits@.len() == old(self).hits@.len(),
            forall|k: int|
                0 <= k < old(self).hits@.len() ==> (#[trigger] final(self).hits@[k]).offset == old(self).hits@[k].offset,
            old(self).hits@.len() > 0 ==> final(self).hits@[old(self).current as int].flash
                == FLASH_MAX,
            forall|k: int|
                0 <= k < old(self).hits@.len() && k != old(self).current ==> (#[trigger] final(self).hits@[k]).flash == old(self).hits@[k].flash,
    {
        if self.hits.len() == 0 {
            return ;
        }
        self.relight_current();
    }

    /// Sets the flash of the hit at `self.current` to full intensity.
    fn relight_current(&mut self)
        requires
            old(self).wf(),
            old(self).hits@.len() > 0,
        ensures
            final(self).wf(),
            final(self).current == old(self).current,
            final(self).active == old(self).active,
            final(self).hits@.len() == old(self).hits@.len(),
            forall|k: int|
                0 <= k < old(self).hits@.len() ==> (#[trigger] final(self).hits@[k]).offset == old(self).hits@[k].offset,
            final(self).hits@[old(self).current as int].flash == FLASH_MAX,
            forall|k: int|
                0 <= k < old(self).hits@.len() && k != old(self).current ==> (#[trigger] final(self).hits@[k]).flash == old(self).hits@[k].flash,
    {
        let cur = self.current;
        let off = self.hits[cur].offset;
        self.hits[cur] = SearchHit { offset: off, flash: FLASH_MAX };
    }

    /// Ages every hit's flash intensity by the elapsed time `dt` (in
    /// thousandths, as the intensities), clamped to `MAX_DECAY_STEP` per tick
    /// and floored at zero.
    pub fn decay(&mut self, dt: u32)
        requires
            old(self).wf(),
        ensures
            final(self).wf(),
            final(self).current == old(self).current,
            final(self).active == old(self).active,
            final(self).hits@.len() == old(self).hits@.len(),
            forall|k: int|
                0 <= k < old(self).hits@.len() ==> (#[trigger] final(self).hits@[k]).offset == old(self).hits@[k].offset,
            forall|k: int|
                0 <= k < old(self).hits@.len() ==> (#[trigger] final(self).hits@[k]).flash
                    == decayed(old(self).hits@[k].flash as int, dt as int),
    {
        let step = if dt < MAX_DECAY_STEP {
            dt
        } else {
            MAX_DECAY_STEP
        };
        let n = self.hits.len();
        let mut k: usize = 0;
        while k < n
            invariant
                0 <= k <= n,
                n == self.hits@.len(),
                self.current == old(self).current,
                self.active == old(self).active,
                self.wf(),
                step == decay_step(dt as int),
                forall|j: int|
                    0 <= j < n ==> (#[trigger] self.hits@[j]).offset == old(self).hits@[j].offset,
                forall|j: int|
                    0 <= j < k ==> (#[trigger] self.hits@[j]).flash == decayed(
                        old(self).hits@[j].flash as int,
                        dt as int,
                    ),
                forall|j: int|
                    k <= j < n ==> (#[trigger] self.hits@[j]).flash == old(self).hits@[j].flash,
            decreases n - k,
        {
            let off = self.hits[k].offset;
            let f = self.hits[k].flash;
            self.hits[k] = SearchHit { offset: off, flash: f.saturating_sub(step) };
            k = k + 1;
        }
    }
}

/// Index reached after `k` forward steps through `n` hits.
pub open spec fn iter_next(i: int, n: int, k: nat) -> int
    decreases k,
{
    if k == 0 {
        i
    } else {
        next_index(iter_next(i, n, (k - 1) as nat), n)
    }
}

/// Index reached after `k` backward steps through `n` hits.
pub open spec fn iter_prev(i: int, n: int, k: nat) -> int
    decreases k,
{
    if k == 0 {
        i
    } else {
        prev_index(iter_prev(i, n, (k - 1) as nat), n)
    }
}

proof fn lemma_iter_next_unrolled(i: int, n: int, k: nat)
    requires
        0 <= i < n,
        k <= n,
    ensures
        iter_next(i, n, k) == if i + k < n {
            i + k
        } else {
            i + k - n
        },
    decreases k,
{
    if k > 0 {
        lemma_iter_next_unrolled(i, n, (k - 1) as nat);
    }
}

proof fn lemma_iter_prev_unrolled(i: int, n: int, k: nat)
    requires
        0 <= i < n,
        k <= n,
    ensures
        iter_prev(i, n, k) == if i - k >= 0 {
            i - k
        } else {
            i - k + n
        },
    decreases k,
{
    if k > 0 {
        lemma_iter_prev_unrolled(i, n, (k - 1) as nat);
    }
}

/// Cyclic navigation: for any non-empty hit list of `n` hits and any valid
/// current index, `n` forward steps return to the starting index, and so do
/// `n` backward steps. Each step is the index change that `next` and `prev`
/// perform.
pub proof fn lemma_navigation_cycles(i: int, n: int)
    requires
        0 <= i < n,
    ensures
        iter_next(i, n, n as nat) == i,
        iter_prev(i, n, n as nat) == i,
{
    lemma_iter_next_unrolled(i, n, n as nat);
    lemma_iter_prev_unrolled(i, n, n as nat);
}

/// Flash decay monotonicity: one decay tick never increases an intensity and
/// never drives it below zero, whatever the elapsed time.
pub proof fn lemma_decay_monotone(f: int, dt: int)
    requires
        0 <= f,
        0 <= dt,
    ensures
        0 <= decayed(f, dt) <= f,
{
}

} // verus!
